//! The body classifier: decides whether a request carries no payload, a
//! payload that can be handed on, or one that has to be refused.

use vstd::prelude::*;
use vstd::string::*;

verus! {

/// Why a request body was refused.
#[derive(Debug)]
pub enum PayloadReason {
    /// The declared length is larger than the limit.
    OverflowKnownLength { length: usize, limit: usize },
    /// The bytes received so far are more than the limit.
    Overflow { limit: usize },
    /// The media type is not one that may carry JSON.
    ContentType,
    /// The body could not be decoded; the text says why.
    Deserialize(String),
    /// The transport failed while the body was read; the text says how.
    Payload(String),
    /// A reason that the service has no category for.
    Other(String),
}

/// The outcome of classifying a request body.
#[derive(Debug)]
pub enum MaybeJson<T> {
    /// Nothing was sent, or nothing that carries an instruction.
    Empty,
    /// The decoded payload.
    Valid(T),
    /// The body was refused.
    Invalid(PayloadReason),
}

/// The options of the classifier.
#[derive(Clone, Copy, Debug)]
pub struct MaybeJsonConfig {
    limit: usize,
    content_type_required: bool,
}

/// The largest body that is accepted when nothing else is configured: 2 MiB.
pub const DEFAULT_LIMIT: usize = 2_097_152;

impl MaybeJsonConfig {
    pub closed spec fn spec_limit(&self) -> usize {
        self.limit
    }

    pub closed spec fn spec_content_type_required(&self) -> bool {
        self.content_type_required
    }

    /// Set the maximum accepted payload size.
    pub fn limit(self, limit: usize) -> (config: Self)
        ensures
            config.spec_limit() == limit,
            config.spec_content_type_required() == self.spec_content_type_required(),
    {
        MaybeJsonConfig { limit, content_type_required: self.content_type_required }
    }

    #[verifier::when_used_as_spec(spec_limit)]
    pub fn get_limit(&self) -> (limit: usize)
        ensures
            limit == self.spec_limit(),
    {
        self.limit
    }

    /// Set whether a request must name a media type that may carry JSON.
    pub fn content_type_required(self, content_type_required: bool) -> (config: Self)
        ensures
            config.spec_limit() == self.spec_limit(),
            config.spec_content_type_required() == content_type_required,
    {
        MaybeJsonConfig { limit: self.limit, content_type_required }
    }

    #[verifier::when_used_as_spec(spec_content_type_required)]
    pub fn get_content_type_required(&self) -> (required: bool)
        ensures
            required == self.spec_content_type_required(),
    {
        self.content_type_required
    }
}

impl Default for MaybeJsonConfig {
    fn default() -> (config: Self)
        ensures
            config.spec_limit() == DEFAULT_LIMIT,
            config.spec_content_type_required(),
    {
        MaybeJsonConfig { limit: DEFAULT_LIMIT, content_type_required: true }
    }
}

/// The bytes that count as ASCII whitespace: space, tab, line feed, form
/// feed and carriage return.
pub open spec fn is_whitespace(byte: u8) -> bool {
    byte == 0x20 || byte == 0x09 || byte == 0x0a || byte == 0x0c || byte == 0x0d
}

/// A body with every whitespace byte taken out.
pub open spec fn without_whitespace(body: Seq<u8>) -> Seq<u8> {
    body.filter(|byte: u8| !is_whitespace(byte))
}

/// The literal of an empty collection: `[]`.
pub open spec fn empty_collection() -> Seq<u8> {
    seq![0x5bu8, 0x5du8]
}

/// Whether a body, whitespace aside, is the literal of an empty collection.
pub open spec fn is_empty_collection(body: Seq<u8>) -> bool {
    without_whitespace(body) == empty_collection()
}

fn whitespace(byte: u8) -> (r: bool)
    ensures
        r == is_whitespace(byte),
{
    byte == 0x20 || byte == 0x09 || byte == 0x0a || byte == 0x0c || byte == 0x0d
}

/// Copies a body without its whitespace bytes.
pub fn strip_whitespace(body: &[u8]) -> (stripped: Vec<u8>)
    ensures
        stripped@ == without_whitespace(body@),
{
    let mut stripped: Vec<u8> = Vec::new();
    let mut i: usize = 0;
    assert(body@.take(0) =~= Seq::<u8>::empty());
    while i < body.len()
        invariant
            i <= body.len(),
            stripped@ == without_whitespace(body@.take(i as int)),
        decreases body.len() - i,
    {
        let byte = body[i];
        proof {
            let next = body@.take(i + 1);
            assert(next.drop_last() =~= body@.take(i as int));
            assert(next.last() == byte);
            reveal_with_fuel(Seq::filter, 2);
        }
        if !whitespace(byte) {
            stripped.push(byte);
        }
        i += 1;
    }
    assert(body@.take(i as int) =~= body@);
    stripped
}

/// Tells whether a body, whitespace aside, is the literal `[]`.
pub fn holds_empty_collection(body: &[u8]) -> (r: bool)
    ensures
        r == is_empty_collection(body@),
{
    let stripped = strip_whitespace(body);
    let r = stripped.len() == 2 && stripped[0] == 0x5b && stripped[1] == 0x5d;
    assert(r == (stripped@ =~= empty_collection()));
    r
}

/// What a body that was read in full is classified as, given what decoding
/// it gave.
pub open spec fn spec_settle<T>(body: Seq<u8>, parsed: Result<T, String>) -> MaybeJson<T> {
    if body.len() == 0 {
        MaybeJson::Empty
    } else {
        match parsed {
            Err(detail) => MaybeJson::Invalid(PayloadReason::Deserialize(detail)),
            Ok(value) => if is_empty_collection(body) {
                MaybeJson::Empty
            } else {
                MaybeJson::Valid(value)
            },
        }
    }
}

/// A body that is, whitespace aside, the literal `[]` holds at least two
/// bytes, and is `Empty` whatever it decodes to.
pub proof fn lemma_empty_collection_is_absent<T>(body: Seq<u8>, parsed: Result<T, String>)
    requires
        is_empty_collection(body),
    ensures
        body.len() >= 2,
        parsed is Ok ==> spec_settle(body, parsed) == MaybeJson::<T>::Empty,
{
    body.lemma_filter_len(|byte: u8| !is_whitespace(byte));
    assert(empty_collection().len() == 2);
}

/// Classifies a body that was read in full, given the result of decoding it.
///
/// A body without bytes is `Empty` whatever the decoder made of it. A body
/// that does not decode is refused with the decoder's words. A body that
/// decodes and is, whitespace aside, the literal `[]` is `Empty` as well: an
/// empty collection carries no instruction.
pub fn settle<T>(body: &[u8], parsed: Result<T, String>) -> (outcome: MaybeJson<T>)
    ensures
        outcome == spec_settle(body@, parsed),
        is_empty_collection(body@) && parsed is Ok ==> outcome == MaybeJson::<T>::Empty,
{
    proof {
        if is_empty_collection(body@) {
            lemma_empty_collection_is_absent(body@, parsed);
        }
    }
    if body.len() == 0 {
        return MaybeJson::Empty;
    }
    match parsed {
        Err(detail) => MaybeJson::Invalid(PayloadReason::Deserialize(detail)),
        Ok(value) => {
            if holds_empty_collection(body) {
                MaybeJson::Empty
            } else {
                MaybeJson::Valid(value)
            }
        },
    }
}

/// A media type as the classifier reads it: the names before and after the
/// slash and the suffix after a plus sign. `parse` hands them over as the
/// parser wrote them; `is_json` compares them with `json` letter for letter.
#[derive(Debug)]
pub struct MediaType {
    pub kind: String,
    pub subtype: String,
    pub suffix: Option<String>,
}

/// The three names of a media type as plain text.
pub type MediaNames = (Seq<char>, Seq<char>, Option<Seq<char>>);

impl MediaType {
    /// The names that the media type holds.
    pub open spec fn names(&self) -> MediaNames {
        (
            self.kind@,
            self.subtype@,
            match self.suffix {
                Some(suffix) => Some(suffix@),
                None => None,
            },
        )
    }

    /// Whether the media type may carry JSON: its subtype or its suffix is
    /// `json`.
    pub open spec fn spec_is_json(&self) -> bool {
        self.subtype@ == "json"@ || (self.suffix matches Some(suffix) && suffix@ == "json"@)
    }

    #[verifier::when_used_as_spec(spec_is_json)]
    pub fn is_json(&self) -> (r: bool)
        ensures
            r == self.spec_is_json(),
    {
        let json = String::from_str("json");
        self.subtype == json || match &self.suffix {
            Some(suffix) => *suffix == json,
            None => false,
        }
    }

    /// Reads a media type from the text of a `Content-Type` header.
    pub fn parse(text: &str) -> (media: Option<MediaType>)
        ensures
            media_names(media) == parsed_media_type(text@),
    {
        parse_media_type(text)
    }
}

/// The names of a media type that may be missing.
pub open spec fn media_names(media: Option<MediaType>) -> Option<MediaNames> {
    match media {
        Some(media) => Some(media.names()),
        None => None,
    }
}

/// What the `mime` parser makes of the text of a `Content-Type` header: the
/// type, the subtype and the suffix, or nothing where the text is no media
/// type.
pub uninterp spec fn parsed_media_type(text: Seq<char>) -> Option<
    (Seq<char>, Seq<char>, Option<Seq<char>>),
>;

/// Calls the `FromStr` impl of `mime::Mime` and copies the type, subtype and
/// suffix of what it returns. The contract claims only that the outcome is a
/// function of the text.
#[verifier::external_body]
fn parse_media_type(text: &str) -> (media: Option<MediaType>)
    ensures
        media_names(media) == parsed_media_type(text@),
{
    match text.parse::<actix_web::mime::Mime>() {
        Ok(mime) => Some(MediaType {
            kind: mime.type_().as_str().to_string(),
            subtype: mime.subtype().as_str().to_string(),
            suffix: mime.suffix().map(|name| name.as_str().to_string()),
        }),
        Err(_) => None,
    }
}

/// Whether `accepted` is a verdict that the content-type policy allows for a
/// request with the given media type.
///
/// Without enforcement every request is accepted. With it, a request without
/// a readable media type is refused, one whose media type may carry JSON is
/// accepted, and any other is accepted exactly if a predicate is configured
/// and says so.
pub open spec fn content_type_verdict<P: Fn(&MediaType) -> bool>(
    required: bool,
    media: Option<MediaType>,
    predicate: Option<P>,
    accepted: bool,
) -> bool {
    if !required {
        accepted
    } else {
        match media {
            None => !accepted,
            Some(media) => if media.is_json() {
                accepted
            } else {
                match predicate {
                    None => !accepted,
                    Some(check) => call_ensures(check, (&media,), accepted),
                }
            },
        }
    }
}

/// Applies the content-type policy to the media type of a request.
pub fn content_type_accepted<P: Fn(&MediaType) -> bool>(
    required: bool,
    media: &Option<MediaType>,
    predicate: &Option<P>,
) -> (accepted: bool)
    requires
        predicate matches Some(check) ==> forall|m: &MediaType| call_requires(check, (m,)),
    ensures
        content_type_verdict(required, *media, *predicate, accepted),
{
    if !required {
        return true;
    }
    match media {
        None => false,
        Some(media) => {
            if media.is_json() {
                true
            } else {
                match predicate {
                    None => false,
                    Some(check) => check(media),
                }
            }
        },
    }
}

/// The options of the classifier together with the predicate that accepts
/// further media types, if one is configured.
pub struct BodyOptions<P> {
    pub options: MaybeJsonConfig,
    pub content_type: Option<P>,
}

impl<P: Fn(&MediaType) -> bool> BodyOptions<P> {
    /// The options that hold when nothing is configured: the default limit,
    /// a media type that may carry JSON is asked for, and no predicate
    /// accepts any other.
    pub fn new() -> (config: Self)
        ensures
            config.content_type is None,
            config.options.spec_limit() == DEFAULT_LIMIT,
            config.options.spec_content_type_required(),
    {
        BodyOptions { options: MaybeJsonConfig::default(), content_type: None }
    }

    /// Set maximum accepted payload size.
    pub fn limit(self, limit: usize) -> (config: Self)
        ensures
            config.options.spec_limit() == limit,
            config.options.spec_content_type_required()
                == self.options.spec_content_type_required(),
            config.content_type == self.content_type,
    {
        BodyOptions { options: self.options.limit(limit), content_type: self.content_type }
    }

    #[verifier::when_used_as_spec(spec_get_limit)]
    pub fn get_limit(&self) -> (limit: usize)
        ensures
            limit == self.options.spec_limit(),
    {
        self.options.get_limit()
    }

    pub open spec fn spec_get_limit(&self) -> usize {
        self.options.spec_limit()
    }

    /// Set predicate for allowed content types.
    pub fn content_type(self, predicate: P) -> (config: Self)
        ensures
            config.content_type == Some(predicate),
            config.options == self.options,
    {
        BodyOptions { options: self.options, content_type: Some(predicate) }
    }

    pub fn get_content_type(&self) -> (predicate: &Option<P>)
        ensures
            *predicate == self.content_type,
    {
        &self.content_type
    }

    /// Sets whether or not the request must name a media type that may
    /// carry JSON.
    pub fn content_type_required(self, content_type_required: bool) -> (config: Self)
        ensures
            config.options.spec_limit() == self.options.spec_limit(),
            config.options.spec_content_type_required() == content_type_required,
            config.content_type == self.content_type,
    {
        BodyOptions {
            options: self.options.content_type_required(content_type_required),
            content_type: self.content_type,
        }
    }

    #[verifier::when_used_as_spec(spec_get_content_type_required)]
    pub fn get_content_type_required(&self) -> (required: bool)
        ensures
            required == self.options.spec_content_type_required(),
    {
        self.options.get_content_type_required()
    }

    pub open spec fn spec_get_content_type_required(&self) -> bool {
        self.options.spec_content_type_required()
    }

    /// Decides on the head of a request under these options.
    pub fn classify_head(&self, declared_length: Option<usize>, media: &Option<MediaType>) -> (head:
        Head)
        requires
            self.content_type matches Some(check) ==> forall|m: &MediaType|
                call_requires(check, (m,)),
        ensures
            head_verdict(self.options, declared_length, *media, self.content_type, head),
    {
        classify_head(&self.options, declared_length, media, &self.content_type)
    }
}

impl<P: Fn(&MediaType) -> bool> Default for BodyOptions<P> {
    fn default() -> (config: Self)
        ensures
            config.content_type is None,
            config.options.spec_limit() == DEFAULT_LIMIT,
            config.options.spec_content_type_required(),
    {
        BodyOptions::new()
    }
}

/// What the head of a request decides before any byte of the body is read.
#[derive(Debug)]
pub enum Head {
    /// No body is announced: the request is `Empty`.
    Absent,
    /// The request is refused without reading its body.
    Refused(PayloadReason),
    /// The body has to be read.
    Read,
}

/// The length that a request declares; a missing or unreadable
/// `Content-Length` counts as zero.
pub open spec fn declared_or_zero(declared_length: Option<usize>) -> usize {
    match declared_length {
        Some(length) => length,
        None => 0,
    }
}

/// Whether `head` is a decision that the classifier may take on the head of
/// a request.
///
/// The declared length is looked at first: zero means that nothing was sent,
/// more than the limit is refused. Only then the content-type policy is
/// applied.
pub open spec fn head_verdict<P: Fn(&MediaType) -> bool>(
    config: MaybeJsonConfig,
    declared_length: Option<usize>,
    media: Option<MediaType>,
    predicate: Option<P>,
    head: Head,
) -> bool {
    let length = declared_or_zero(declared_length);
    if length == 0 {
        head == Head::Absent
    } else if length > config.spec_limit() {
        head == Head::Refused(
            PayloadReason::OverflowKnownLength { length, limit: config.spec_limit() },
        )
    } else {
        exists|accepted: bool|
            #![auto]
            content_type_verdict(
                config.spec_content_type_required(),
                media,
                predicate,
                accepted,
            ) && head == (if accepted {
                Head::Read
            } else {
                Head::Refused(PayloadReason::ContentType)
            })
    }
}

/// Decides on the head of a request: its declared length and media type.
pub fn classify_head<P: Fn(&MediaType) -> bool>(
    config: &MaybeJsonConfig,
    declared_length: Option<usize>,
    media: &Option<MediaType>,
    predicate: &Option<P>,
) -> (head: Head)
    requires
        predicate matches Some(check) ==> forall|m: &MediaType| call_requires(check, (m,)),
    ensures
        head_verdict(*config, declared_length, *media, *predicate, head),
        declared_or_zero(declared_length) == 0 ==> head == Head::Absent,
        declared_or_zero(declared_length) > config.spec_limit() ==> head == Head::Refused(
            PayloadReason::OverflowKnownLength {
                length: declared_or_zero(declared_length),
                limit: config.spec_limit(),
            },
        ),
        0 < declared_or_zero(declared_length) <= config.spec_limit()
            && config.spec_content_type_required() && (media matches Some(m) ==> !m.is_json()
            && predicate is None) ==> head == Head::Refused(PayloadReason::ContentType),
{
    let length = match declared_length {
        Some(length) => length,
        None => 0,
    };
    let limit = config.get_limit();
    if length == 0 {
        return Head::Absent;
    }
    if length > limit {
        return Head::Refused(PayloadReason::OverflowKnownLength { length, limit });
    }
    if content_type_accepted(config.get_content_type_required(), media, predicate) {
        Head::Read
    } else {
        Head::Refused(PayloadReason::ContentType)
    }
}

/// What the body read so far becomes when one more piece arrives.
///
/// A transport failure ends the reading with the failure's words. A piece
/// that would take the body over the limit ends it too. Any other piece is
/// added at the end.
pub open spec fn spec_accept_chunk(
    body: Seq<u8>,
    chunk: Result<Seq<u8>, String>,
    limit: usize,
) -> Result<Seq<u8>, PayloadReason> {
    match chunk {
        Err(detail) => Err(PayloadReason::Payload(detail)),
        Ok(bytes) => if body.len() + bytes.len() > limit {
            Err(PayloadReason::Overflow { limit })
        } else {
            Ok(body + bytes)
        },
    }
}

/// A piece as the transport hands it over, with its bytes as a sequence.
pub open spec fn piece(chunk: Result<Vec<u8>, String>) -> Result<Seq<u8>, String> {
    match chunk {
        Ok(bytes) => Ok(bytes@),
        Err(detail) => Err(detail),
    }
}

/// The body that a sequence of pieces adds up to, or the reason for which
/// reading stopped at the first piece that could not be taken.
pub open spec fn gather(chunks: Seq<Result<Vec<u8>, String>>, limit: usize) -> Result<
    Seq<u8>,
    PayloadReason,
>
    decreases chunks.len(),
{
    if chunks.len() == 0 {
        Ok(Seq::empty())
    } else {
        match gather(chunks.drop_last(), limit) {
            Err(reason) => Err(reason),
            Ok(body) => spec_accept_chunk(body, piece(chunks.last()), limit),
        }
    }
}

/// Takes one more piece of the body. On refusal the body read so far is
/// left as it was, and nothing is allocated for the piece.
pub fn accept_chunk(body: &mut Vec<u8>, chunk: Result<&[u8], String>, limit: usize) -> (refusal:
    Option<PayloadReason>)
    ensures
        match chunk {
            Err(detail) => refusal == Some(PayloadReason::Payload(detail)) && final(body)@ == old(
                body,
            )@,
            Ok(bytes) => match spec_accept_chunk(old(body)@, Ok(bytes@), limit) {
                Ok(longer) => refusal is None && final(body)@ == longer,
                Err(reason) => refusal == Some(reason) && final(body)@ == old(body)@,
            },
        },
{
    match chunk {
        Err(detail) => Some(PayloadReason::Payload(detail)),
        Ok(bytes) => {
            if body.len() > limit || bytes.len() > limit - body.len() {
                Some(PayloadReason::Overflow { limit })
            } else {
                body.extend_from_slice(bytes);
                None
            }
        },
    }
}

/// Whether `outcome` is a classification that a body read in full may get
/// from a decoder: `Empty` for a body without bytes, else what `spec_settle`
/// makes of a result that the decoder may return on the body.
pub open spec fn body_verdict<T, D: FnOnce(&Vec<u8>) -> Result<T, String>>(
    body: Vec<u8>,
    decode: D,
    outcome: MaybeJson<T>,
) -> bool {
    if body@.len() == 0 {
        outcome == MaybeJson::<T>::Empty
    } else {
        exists|parsed: Result<T, String>|
            #![auto]
            call_ensures(decode, (&body,), parsed) && outcome == spec_settle(body@, parsed)
    }
}

/// Classifies a body that was read in full. The decoder is called only on a
/// body that holds at least one byte.
pub fn classify_body<T, D: FnOnce(&Vec<u8>) -> Result<T, String>>(body: &Vec<u8>, decode: D) -> (outcome:
    MaybeJson<T>)
    requires
        call_requires(decode, (body,)),
    ensures
        body_verdict(*body, decode, outcome),
        body@.len() == 0 ==> outcome == MaybeJson::<T>::Empty,
        is_empty_collection(body@) ==> outcome is Empty || outcome is Invalid,
{
    if body.len() == 0 {
        return MaybeJson::Empty;
    }
    let parsed = decode(body);
    settle(body.as_slice(), parsed)
}

/// Whether no configured predicate accepts a media type.
pub open spec fn no_predicate_accepts<P: Fn(&MediaType) -> bool>(
    predicate: Option<P>,
    media: MediaType,
) -> bool {
    predicate matches Some(check) ==> !call_ensures(check, (&media,), true)
}

/// Whether `outcome` is a classification that the request may get.
///
/// The head decides first. Only where it asks for the body are the pieces
/// read, up to the first that cannot be taken, and only a body that was read
/// in full is decoded.
pub open spec fn request_verdict<T, P: Fn(&MediaType) -> bool, D: FnOnce(&Vec<u8>) -> Result<
    T,
    String,
>>(
    config: MaybeJsonConfig,
    declared_length: Option<usize>,
    media: Option<MediaType>,
    predicate: Option<P>,
    chunks: Seq<Result<Vec<u8>, String>>,
    decode: D,
    outcome: MaybeJson<T>,
) -> bool {
    exists|head: Head|
        #![auto]
        head_verdict(config, declared_length, media, predicate, head) && match head {
            Head::Absent => outcome == MaybeJson::<T>::Empty,
            Head::Refused(reason) => outcome == MaybeJson::<T>::Invalid(reason),
            Head::Read => match gather(chunks, config.spec_limit()) {
                Err(reason) => outcome == MaybeJson::<T>::Invalid(reason),
                Ok(body) => exists|buffer: Vec<u8>|
                    #![auto]
                    buffer@ == body && body_verdict(buffer, decode, outcome),
            },
        }
}

/// Classifies a request whose body has arrived as a sequence of pieces.
///
/// A declared length over the limit and a media type that the policy does
/// not accept are refused whatever the pieces hold: they are not looked at.
/// A body that is, whitespace aside, the literal `[]` is never `Valid`.
#[verifier::loop_isolation(false)]
pub fn classify<T, P: Fn(&MediaType) -> bool, D: FnOnce(&Vec<u8>) -> Result<T, String>>(
    config: &MaybeJsonConfig,
    declared_length: Option<usize>,
    media: &Option<MediaType>,
    predicate: &Option<P>,
    chunks: &Vec<Result<Vec<u8>, String>>,
    decode: D,
) -> (outcome: MaybeJson<T>)
    requires
        predicate matches Some(check) ==> forall|m: &MediaType| call_requires(check, (m,)),
        forall|body: &Vec<u8>| call_requires(decode, (body,)),
    ensures
        request_verdict(*config, declared_length, *media, *predicate, chunks@, decode, outcome),
        declared_or_zero(declared_length) == 0 ==> outcome == MaybeJson::<T>::Empty,
        declared_or_zero(declared_length) > config.spec_limit() ==> outcome == MaybeJson::<
            T,
        >::Invalid(
            PayloadReason::OverflowKnownLength {
                length: declared_or_zero(declared_length),
                limit: config.spec_limit(),
            },
        ),
        0 < declared_or_zero(declared_length) <= config.spec_limit()
            && config.spec_content_type_required() && (media matches Some(m) ==> !m.is_json()
            && no_predicate_accepts(*predicate, *m)) ==> outcome == MaybeJson::<T>::Invalid(
            PayloadReason::ContentType,
        ),
        outcome is Valid ==> (gather(chunks@, config.spec_limit()) matches Ok(body)
            && !is_empty_collection(body)),
        0 < declared_or_zero(declared_length) <= config.spec_limit() && (
        !config.spec_content_type_required() || (media matches Some(m) && m.is_json())) ==> (
        gather(chunks@, config.spec_limit()) matches Ok(body) && is_empty_collection(body)
            ==> outcome is Empty || outcome matches MaybeJson::Invalid(
            PayloadReason::Deserialize(_),
        )),
{
    match classify_head(config, declared_length, media, predicate) {
        Head::Absent => MaybeJson::Empty,
        Head::Refused(reason) => MaybeJson::Invalid(reason),
        Head::Read => {
            let limit = config.get_limit();
            let mut body: Vec<u8> = Vec::new();
            let mut i: usize = 0;
            assert(chunks@.take(0) =~= Seq::empty());
            while i < chunks.len()
                invariant
                    i <= chunks.len(),
                    gather(chunks@.take(i as int), limit) == Ok::<Seq<u8>, PayloadReason>(body@),
                decreases chunks.len() - i,
            {
                assert(chunks@.take(i + 1).drop_last() =~= chunks@.take(i as int));
                assert(chunks@.take(i + 1).last() == chunks@[i as int]);
                let refusal = match &chunks[i] {
                    Ok(bytes) => accept_chunk(&mut body, Ok(bytes.as_slice()), limit),
                    Err(detail) => accept_chunk(&mut body, Err(detail.clone()), limit),
                };
                match refusal {
                    Some(reason) => {
                        proof {
                            lemma_gather_stops(chunks@, i + 1, limit);
                        }
                        return MaybeJson::Invalid(reason);
                    },
                    None => {},
                }
                i += 1;
            }
            assert(chunks@.take(i as int) =~= chunks@);
            classify_body(&body, decode)
        },
    }
}

/// Once reading has stopped at a piece, the pieces after it change nothing.
pub proof fn lemma_gather_stops(chunks: Seq<Result<Vec<u8>, String>>, n: int, limit: usize)
    requires
        0 <= n <= chunks.len(),
        gather(chunks.take(n), limit) is Err,
    ensures
        gather(chunks, limit) == gather(chunks.take(n), limit),
    decreases chunks.len(),
{
    if n == chunks.len() {
        assert(chunks.take(n) =~= chunks);
    } else {
        assert(chunks.drop_last().take(n) =~= chunks.take(n));
        lemma_gather_stops(chunks.drop_last(), n, limit);
    }
}

/// What `serde_json` makes of a body that is to hold a list of identifiers:
/// the identifiers, or the words in which it says why the body holds none.
pub uninterp spec fn decoded_ids(body: Seq<u8>) -> Result<Seq<i32>, Seq<char>>;

/// A decoded list of identifiers, or the words of a failure, as plain
/// values.
pub open spec fn ids_or_words(parsed: Result<Vec<i32>, String>) -> Result<Seq<i32>, Seq<char>> {
    match parsed {
        Ok(ids) => Ok(ids@),
        Err(words) => Err(words@),
    }
}

/// Calls `serde_json::from_slice` for a `Vec<i32>`; a failure is kept as the
/// text that its `Display` impl writes. The contract claims only that the
/// outcome is a function of the bytes.
#[verifier::external_body]
fn decode_ids(body: &Vec<u8>) -> (parsed: Result<Vec<i32>, String>)
    ensures
        ids_or_words(parsed) == decoded_ids(body@),
{
    match serde_json::from_slice::<Vec<i32>>(body.as_slice()) {
        Ok(ids) => Ok(ids),
        Err(err) => Err(err.to_string()),
    }
}

/// Classifies a request whose body is to hold a list of identifiers, as the
/// requests that address lists do.
pub fn classify_ids<P: Fn(&MediaType) -> bool>(
    config: &MaybeJsonConfig,
    declared_length: Option<usize>,
    media: &Option<MediaType>,
    predicate: &Option<P>,
    chunks: &Vec<Result<Vec<u8>, String>>,
) -> (outcome: MaybeJson<Vec<i32>>)
    requires
        predicate matches Some(check) ==> forall|m: &MediaType| call_requires(check, (m,)),
    ensures
        exists|head: Head|
            #![auto]
            head_verdict(*config, declared_length, *media, *predicate, head) && match head {
                Head::Absent => outcome == MaybeJson::<Vec<i32>>::Empty,
                Head::Refused(reason) => outcome == MaybeJson::<Vec<i32>>::Invalid(reason),
                Head::Read => match gather(chunks@, config.spec_limit()) {
                    Err(reason) => outcome == MaybeJson::<Vec<i32>>::Invalid(reason),
                    Ok(body) => ids_verdict(body, outcome),
                },
            },
{
    let outcome = classify(config, declared_length, media, predicate, chunks, decode_ids);
    proof {
        let head = choose|head: Head|
            #![auto]
            head_verdict(*config, declared_length, *media, *predicate, head) && match head {
                Head::Absent => outcome == MaybeJson::<Vec<i32>>::Empty,
                Head::Refused(reason) => outcome == MaybeJson::<Vec<i32>>::Invalid(reason),
                Head::Read => match gather(chunks@, config.spec_limit()) {
                    Err(reason) => outcome == MaybeJson::<Vec<i32>>::Invalid(reason),
                    Ok(body) => exists|buffer: Vec<u8>|
                        #![auto]
                        buffer@ == body && body_verdict(buffer, decode_ids, outcome),
                },
            };
        if head is Read {
            if let Ok(body) = gather(chunks@, config.spec_limit()) {
                let buffer = choose|buffer: Vec<u8>|
                    #![auto]
                    buffer@ == body && body_verdict(buffer, decode_ids, outcome);
                if body.len() > 0 {
                    let parsed = choose|parsed: Result<Vec<i32>, String>|
                        #![auto]
                        call_ensures(decode_ids, (&buffer,), parsed) && outcome == spec_settle(
                            body,
                            parsed,
                        );
                    assert(ids_or_words(parsed) == decoded_ids(body));
                }
                assert(ids_verdict(body, outcome));
            }
        }
    }
    outcome
}

/// Whether `outcome` is the classification of a body that was read in full
/// and is to hold a list of identifiers.
pub open spec fn ids_verdict(body: Seq<u8>, outcome: MaybeJson<Vec<i32>>) -> bool {
    if body.len() == 0 {
        outcome is Empty
    } else {
        match decoded_ids(body) {
            Err(words) => outcome matches MaybeJson::Invalid(PayloadReason::Deserialize(detail))
                && detail@ == words,
            Ok(ids) => if is_empty_collection(body) {
                outcome is Empty
            } else {
                outcome matches MaybeJson::Valid(list) && list@ == ids
            },
        }
    }
}

} // verus!
