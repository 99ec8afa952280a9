//! The registry's error vocabulary: a closed set of codes, the canonical
//! short and long text of each, and the envelope that carries a list of them
//! to a client.

use vstd::prelude::*;

verus! {

/// The error codes that a registry may answer with. Clients tell them apart
/// by name, so the names are part of the interface.
#[allow(non_camel_case_types)]
#[derive(Clone, Copy, Debug, PartialEq, Eq, Structural, Hash)]
pub enum ErrorType {
    BLOB_UNKNOWN,
    BLOB_UPLOAD_INVALID,
    BLOB_UPLOAD_UNKNOWN,
    DIGEST_INVALID,
    MANIFEST_BLOB_UNKNOWN,
    MANIFEST_INVALID,
    MANIFEST_UNKNOWN,
    MANIFEST_UNVERIFIED,
    NAME_INVALID,
    NAME_UNKNOWN,
    SIZE_INVALID,
    TAG_INVALID,
    UNAUTHORIZED,
    DENIED,
    UNSUPPORTED,
}

/// One error as a client reads it: the code and its two texts.
#[verifier::ext_equal]
pub struct ErrorView {
    pub code: ErrorType,
    pub message: Seq<char>,
    pub detail: Seq<char>,
}

pub type Message = String;

pub type Detail = String;

/// One entry of an envelope.
#[derive(Debug, PartialEq, Eq)]
pub enum Error {
    Error { code: ErrorType, message: Message, detail: Detail },
}

impl View for Error {
    type V = ErrorView;

    open spec fn view(&self) -> ErrorView {
        match *self {
            Error::Error { code, message, detail } => ErrorView {
                code,
                message: message@,
                detail: detail@,
            },
        }
    }
}

impl Error {
    /// The entry carries the texts that belong to its code, and no others.
    pub open spec fn is_canonical(&self) -> bool {
        self@ == describe(self@.code)
    }
}

/// The body of an error response: entries in the order in which the
/// failures were reported, repeated where a failure was.
#[derive(Debug, PartialEq, Eq)]
pub struct Errors {
    errors: Vec<Error>,
}

impl Errors {
    /// The entries, first to last.
    pub closed spec fn entries(&self) -> Seq<Error> {
        self.errors@
    }

    #[verifier::type_invariant]
    spec fn all_canonical(&self) -> bool {
        forall|i: int| 0 <= i < self.errors@.len() ==> (#[trigger] self.errors@[i]).is_canonical()
    }

    /// The entries, first to last. Each carries the texts of its code.
    pub fn errors(&self) -> (entries: &Vec<Error>)
        ensures
            entries@ == self.entries(),
            forall|i: int| 0 <= i < entries@.len() ==> (#[trigger] entries@[i]).is_canonical(),
    {
        proof {
            use_type_invariant(self);
        }
        &self.errors
    }
}

impl View for Errors {
    type V = Seq<ErrorView>;

    open spec fn view(&self) -> Seq<ErrorView> {
        self.entries().map_values(|entry: Error| entry@)
    }
}

/// The entry that stands for `code`.
pub open spec fn describe(code: ErrorType) -> ErrorView {
    ErrorView { code, message: message_of(code), detail: detail_of(code) }
}

/// The envelope that stands for `codes`: one entry for each, in their order.
pub open spec fn envelope_of(codes: Seq<ErrorType>) -> Seq<ErrorView> {
    codes.map_values(|code: ErrorType| describe(code))
}

/// The short text of a code.
pub open spec fn message_of(code: ErrorType) -> Seq<char> {
    match code {
        ErrorType::BLOB_UNKNOWN => "blob unknown to registry"@,
        ErrorType::BLOB_UPLOAD_INVALID => "blob upload invalid"@,
        ErrorType::BLOB_UPLOAD_UNKNOWN => "blob upload unknown to registry"@,
        ErrorType::DIGEST_INVALID => "provided digest did not match uploaded content"@,
        ErrorType::MANIFEST_BLOB_UNKNOWN => "blob unknown to registry"@,
        ErrorType::MANIFEST_INVALID => "manifest invalid"@,
        ErrorType::MANIFEST_UNKNOWN => "manifest unknown"@,
        ErrorType::MANIFEST_UNVERIFIED => "manifest failed signature verification"@,
        ErrorType::NAME_INVALID => "invalid repository name"@,
        ErrorType::NAME_UNKNOWN => "repository not known to registry"@,
        ErrorType::SIZE_INVALID => "provided length did not match content length"@,
        ErrorType::TAG_INVALID => "manifest tag did not match URI"@,
        ErrorType::UNAUTHORIZED => "authentication required"@,
        ErrorType::DENIED => "requested access to the resource is denied"@,
        ErrorType::UNSUPPORTED => "The operation is unsupported"@,
    }
}

/// Looks up the short text of `error`.
pub fn get_message(error: &ErrorType) -> (message: String)
    ensures
        message@ == message_of(*error),
        message@.len() > 0,
{
    let message = match *error {
        ErrorType::BLOB_UNKNOWN => "blob unknown to registry",
        ErrorType::BLOB_UPLOAD_INVALID => "blob upload invalid",
        ErrorType::BLOB_UPLOAD_UNKNOWN => "blob upload unknown to registry",
        ErrorType::DIGEST_INVALID => "provided digest did not match uploaded content",
        ErrorType::MANIFEST_BLOB_UNKNOWN => "blob unknown to registry",
        ErrorType::MANIFEST_INVALID => "manifest invalid",
        ErrorType::MANIFEST_UNKNOWN => "manifest unknown",
        ErrorType::MANIFEST_UNVERIFIED => "manifest failed signature verification",
        ErrorType::NAME_INVALID => "invalid repository name",
        ErrorType::NAME_UNKNOWN => "repository not known to registry",
        ErrorType::SIZE_INVALID => "provided length did not match content length",
        ErrorType::TAG_INVALID => "manifest tag did not match URI",
        ErrorType::UNAUTHORIZED => "authentication required",
        ErrorType::DENIED => "requested access to the resource is denied",
        ErrorType::UNSUPPORTED => "The operation is unsupported",
    };
    proof {
        lemma_message_nonempty(*error);
    }
    message.to_owned()
}

/// The long text of a code.
pub open spec fn detail_of(code: ErrorType) -> Seq<char> {
    match code {
        ErrorType::BLOB_UNKNOWN => "This error may be returned when a blob is unknown to the registry in a specified repository. This can be returned with a standard get or if a manifest references an unknown layer during upload"@,
        ErrorType::BLOB_UPLOAD_INVALID => "The blob upload encountered an error and can no longer proceed"@,
        ErrorType::BLOB_UPLOAD_UNKNOWN => "If a blob upload has been cancelled or was never started, this error code may be returned"@,
        ErrorType::DIGEST_INVALID => "When a blob is uploaded, the registry will check that the content matches the digest provided by the client. The error may include a detail structure with the key \"digest\" including the invalid digest string. This error may also be returned when a minfest includes an invalid layer digest."@,
        ErrorType::MANIFEST_BLOB_UNKNOWN => "This error may be returned when a manifest blob is unknown to the registry"@,
        ErrorType::MANIFEST_INVALID => "During upload, manifests undergo several checks ensuring validity. If those checks fail, this error may be returned, unless a more specific error is included. The detail will contain information the failed validation."@,
        ErrorType::MANIFEST_UNKNOWN => "This error is returned when the manifest, identified by name and tag is unknown to the repository."@,
        ErrorType::MANIFEST_UNVERIFIED => "During manifest upload, if the manifest fails signature verification, this error will be returned."@,
        ErrorType::NAME_INVALID => "Invalid repository name encountered either during manifest validation or any API operation."@,
        ErrorType::NAME_UNKNOWN => "This is returned if the name used during an operation is unknown to the registry."@,
        ErrorType::SIZE_INVALID => "When a layer is uploaded, the provided size will be checked against the uploaded content. If they do not match, this error will be returned."@,
        ErrorType::TAG_INVALID => "During a manifest upload, if the tag in the manifest does not match the uri tag, this error will be returned."@,
        ErrorType::UNAUTHORIZED => "The access controller was unable to authenticate the client. Often this will be accompanied by a Www-Authenticate HTTP response header indicating how to authenticate."@,
        ErrorType::DENIED => "The access controller denied access for the operation on a resource."@,
        ErrorType::UNSUPPORTED => "The operation was unsupported due to a missing implementation or invalid set of parameters."@,
    }
}

/// Looks up the long text of `error`.
pub fn get_detail(error: &ErrorType) -> (detail: String)
    ensures
        detail@ == detail_of(*error),
        detail@.len() > 0,
{
    let detail = match *error {
        ErrorType::BLOB_UNKNOWN => "This error may be returned when a blob is unknown to the registry in a specified repository. This can be returned with a standard get or if a manifest references an unknown layer during upload",
        ErrorType::BLOB_UPLOAD_INVALID => "The blob upload encountered an error and can no longer proceed",
        ErrorType::BLOB_UPLOAD_UNKNOWN => "If a blob upload has been cancelled or was never started, this error code may be returned",
        ErrorType::DIGEST_INVALID => "When a blob is uploaded, the registry will check that the content matches the digest provided by the client. The error may include a detail structure with the key \"digest\" including the invalid digest string. This error may also be returned when a minfest includes an invalid layer digest.",
        ErrorType::MANIFEST_BLOB_UNKNOWN => "This error may be returned when a manifest blob is unknown to the registry",
        ErrorType::MANIFEST_INVALID => "During upload, manifests undergo several checks ensuring validity. If those checks fail, this error may be returned, unless a more specific error is included. The detail will contain information the failed validation.",
        ErrorType::MANIFEST_UNKNOWN => "This error is returned when the manifest, identified by name and tag is unknown to the repository.",
        ErrorType::MANIFEST_UNVERIFIED => "During manifest upload, if the manifest fails signature verification, this error will be returned.",
        ErrorType::NAME_INVALID => "Invalid repository name encountered either during manifest validation or any API operation.",
        ErrorType::NAME_UNKNOWN => "This is returned if the name used during an operation is unknown to the registry.",
        ErrorType::SIZE_INVALID => "When a layer is uploaded, the provided size will be checked against the uploaded content. If they do not match, this error will be returned.",
        ErrorType::TAG_INVALID => "During a manifest upload, if the tag in the manifest does not match the uri tag, this error will be returned.",
        ErrorType::UNAUTHORIZED => "The access controller was unable to authenticate the client. Often this will be accompanied by a Www-Authenticate HTTP response header indicating how to authenticate.",
        ErrorType::DENIED => "The access controller denied access for the operation on a resource.",
        ErrorType::UNSUPPORTED => "The operation was unsupported due to a missing implementation or invalid set of parameters.",
    };
    proof {
        lemma_detail_nonempty(*error);
    }
    detail.to_owned()
}

/// Builds the entry for `error`: the code itself with its short and long
/// text. Every code has both, and neither is empty.
pub fn get_error(error: ErrorType) -> (entry: Error)
    ensures
        entry@ == describe(error),
        entry.is_canonical(),
        entry@.message.len() > 0,
        entry@.detail.len() > 0,
{
    let message = get_message(&error);
    let detail = get_detail(&error);
    Error::Error { code: error, message: message, detail: detail }
}

/// Builds the envelope for `errors`: as many entries as there are codes, the
/// entry at each place describing the code at that place. An empty list
/// gives an empty envelope.
pub fn generate_errors(errors: &[ErrorType]) -> (envelope: Errors)
    ensures
        envelope@ == envelope_of(errors@),
        envelope@.len() == errors@.len(),
        forall|i: int| 0 <= i < errors@.len() ==> envelope@[i] == describe(#[trigger] errors@[i]),
{
    let mut my_errors: Vec<Error> = Vec::new();
    let mut i: usize = 0;
    while i < errors.len()
        invariant
            i <= errors@.len(),
            my_errors@.len() == i,
            forall|j: int| 0 <= j < i ==> (#[trigger] my_errors@[j])@ == describe(errors@[j]),
        decreases errors@.len() - i,
    {
        let error = get_error(errors[i]);
        my_errors.push(error);
        i += 1;
    }
    let envelope = Errors { errors: my_errors };
    assert(envelope@ =~= envelope_of(errors@));
    envelope
}

/// Builds the envelope for `errors` as `generate_errors` does, and shows
/// every entry to `observer` as soon as it is built. The observer sees the
/// entries; it cannot change them.
pub fn generate_errors_with<F: Fn(&Error)>(errors: &[ErrorType], observer: F) -> (envelope: Errors)
    requires
        forall|entry: Error| entry.is_canonical() ==> call_requires(observer, (&entry,)),
    ensures
        envelope@ == envelope_of(errors@),
        envelope@.len() == errors@.len(),
        forall|i: int| 0 <= i < errors@.len() ==> envelope@[i] == describe(#[trigger] errors@[i]),
        forall|i: int|
            0 <= i < envelope.entries().len() ==> call_ensures(
                observer,
                (&#[trigger] envelope.entries()[i],),
                (),
            ),
{
    let mut my_errors: Vec<Error> = Vec::new();
    let mut i: usize = 0;
    while i < errors.len()
        invariant
            i <= errors@.len(),
            my_errors@.len() == i,
            forall|entry: Error| entry.is_canonical() ==> call_requires(observer, (&entry,)),
            forall|j: int| 0 <= j < i ==> (#[trigger] my_errors@[j])@ == describe(errors@[j]),
            forall|j: int| 0 <= j < i ==> call_ensures(observer, (&#[trigger] my_errors@[j],), ()),
        decreases errors@.len() - i,
    {
        let error = get_error(errors[i]);
        observer(&error);
        my_errors.push(error);
        i += 1;
    }
    let envelope = Errors { errors: my_errors };
    assert(envelope@ =~= envelope_of(errors@));
    envelope
}

/// No code has an empty short text.
pub proof fn lemma_message_nonempty(code: ErrorType)
    ensures
        message_of(code).len() > 0,
{
    reveal_strlit("blob unknown to registry");
    reveal_strlit("blob upload invalid");
    reveal_strlit("blob upload unknown to registry");
    reveal_strlit("provided digest did not match uploaded content");
    reveal_strlit("manifest invalid");
    reveal_strlit("manifest unknown");
    reveal_strlit("manifest failed signature verification");
    reveal_strlit("invalid repository name");
    reveal_strlit("repository not known to registry");
    reveal_strlit("provided length did not match content length");
    reveal_strlit("manifest tag did not match URI");
    reveal_strlit("authentication required");
    reveal_strlit("requested access to the resource is denied");
    reveal_strlit("The operation is unsupported");
}

/// No code has an empty long text.
pub proof fn lemma_detail_nonempty(code: ErrorType)
    ensures
        detail_of(code).len() > 0,
{
    reveal_strlit("This error may be returned when a blob is unknown to the registry in a specified repository. This can be returned with a standard get or if a manifest references an unknown layer during upload");
    reveal_strlit("The blob upload encountered an error and can no longer proceed");
    reveal_strlit("If a blob upload has been cancelled or was never started, this error code may be returned");
    reveal_strlit("When a blob is uploaded, the registry will check that the content matches the digest provided by the client. The error may include a detail structure with the key \"digest\" including the invalid digest string. This error may also be returned when a minfest includes an invalid layer digest.");
    reveal_strlit("This error may be returned when a manifest blob is unknown to the registry");
    reveal_strlit("During upload, manifests undergo several checks ensuring validity. If those checks fail, this error may be returned, unless a more specific error is included. The detail will contain information the failed validation.");
    reveal_strlit("This error is returned when the manifest, identified by name and tag is unknown to the repository.");
    reveal_strlit("During manifest upload, if the manifest fails signature verification, this error will be returned.");
    reveal_strlit("Invalid repository name encountered either during manifest validation or any API operation.");
    reveal_strlit("This is returned if the name used during an operation is unknown to the registry.");
    reveal_strlit("When a layer is uploaded, the provided size will be checked against the uploaded content. If they do not match, this error will be returned.");
    reveal_strlit("During a manifest upload, if the tag in the manifest does not match the uri tag, this error will be returned.");
    reveal_strlit("The access controller was unable to authenticate the client. Often this will be accompanied by a Www-Authenticate HTTP response header indicating how to authenticate.");
    reveal_strlit("The access controller denied access for the operation on a resource.");
    reveal_strlit("The operation was unsupported due to a missing implementation or invalid set of parameters.");
}

/// The entry of a code depends on the code and on nothing else: two entries
/// built for one code read the same, whenever and wherever they were built.
/// Neither of its texts is empty.
pub proof fn lemma_description_is_stable(first: Error, second: Error, code: ErrorType)
    requires
        first@ == describe(code),
        second@ == describe(code),
    ensures
        first@ == second@,
        first@.code == code,
        first@.message.len() > 0,
        first@.detail.len() > 0,
{
    lemma_message_nonempty(code);
    lemma_detail_nonempty(code);
}

/// An envelope has one entry for each code, in the order of the codes: the
/// entry at a place describes the code at that place, so a code that is
/// given twice is answered twice, by entries that read the same.
pub proof fn lemma_envelope_mirrors_codes(codes: Seq<ErrorType>)
    ensures
        envelope_of(codes).len() == codes.len(),
        forall|i: int| 0 <= i < codes.len() ==> (#[trigger] envelope_of(codes)[i]) == describe(codes[i]),
        forall|i: int, j: int|
            0 <= i < codes.len() && 0 <= j < codes.len() && codes[i] == codes[j]
                ==> envelope_of(codes)[i] == envelope_of(codes)[j],
        codes.len() == 0 ==> envelope_of(codes) == Seq::<ErrorView>::empty(),
{
    assert(codes.len() == 0 ==> envelope_of(codes) =~= Seq::<ErrorView>::empty());
}

} // verus!
