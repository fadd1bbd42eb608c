use vstd::prelude::*;

verus! {

/// Status of a scrape whose encoding succeeded.
pub const STATUS_OK: u16 = 200;

/// Status of a scrape whose encoding failed.
pub const STATUS_INTERNAL_SERVER_ERROR: u16 = 500;

/// The one way a scrape can fail: the encoder rejected the gathered snapshot.
pub struct EncodingFailure {
    /// What the encoder reported.
    pub detail: String,
}

/// What a scrape answers: a status, a content type and a body. On failure it
/// also carries the encoder's report, for the caller to log.
pub struct MetricsResponse {
    pub status: u16,
    pub content_type: Option<String>,
    pub body: Vec<u8>,
    pub failure: Option<EncodingFailure>,
}

/// `r` is the answer to an encoding outcome: the encoded bytes (`Some`) or a
/// failure (`None`), with `format` the identifier the encoder reports.
pub open spec fn answers(r: MetricsResponse, encoded: Option<Seq<u8>>, format: Seq<char>) -> bool {
    match encoded {
        Some(bytes) => {
            &&& r.status == STATUS_OK
            &&& r.content_type is Some
            &&& r.content_type->0@ == format
            &&& r.body@ == bytes
            &&& r.failure is None
        },
        None => {
            &&& r.status == STATUS_INTERNAL_SERVER_ERROR
            &&& r.content_type is None
            &&& r.body@.len() == 0
            &&& r.failure is Some
        },
    }
}

/// The body of an encoding outcome, `None` on failure.
pub open spec fn encoded_body(encoded: Result<Vec<u8>, EncodingFailure>) -> Option<Seq<u8>> {
    match encoded {
        Ok(bytes) => Some(bytes@),
        Err(_) => None,
    }
}

/// Turns an encoding outcome into the response: the bytes with status 200 and
/// the encoder's format identifier as content type, or status 500 with no
/// content type, an empty body and the failure kept for logging.
pub fn respond(encoded: Result<Vec<u8>, EncodingFailure>, format: String) -> (r: MetricsResponse)
    ensures
        answers(r, encoded_body(encoded), format@),
        encoded matches Err(e) ==> r.failure == Some(e),
{
    match encoded {
        Ok(body) => MetricsResponse {
            status: STATUS_OK,
            content_type: Some(format),
            body,
            failure: None,
        },
        Err(e) => MetricsResponse {
            status: STATUS_INTERNAL_SERVER_ERROR,
            content_type: None,
            body: Vec::new(),
            failure: Some(e),
        },
    }
}

/// Two responses to the same encoding outcome, with the same format
/// identifier, are the same bytes: same status, same content type, same body.
pub proof fn lemma_same_encoding_same_response(
    r1: MetricsResponse,
    r2: MetricsResponse,
    encoded: Option<Seq<u8>>,
    format: Seq<char>,
)
    requires
        answers(r1, encoded, format),
        answers(r2, encoded, format),
    ensures
        r1.status == r2.status,
        r1.content_type is Some <==> r2.content_type is Some,
        r1.content_type is Some ==> r1.content_type->0@ == r2.content_type->0@,
        r1.body@ == r2.body@,
{
}

/// A failed encoding is never answered with a body or a content type, and a
/// successful one always carries the encoder's identifier, whatever the bytes.
pub proof fn lemma_content_type_follows_encoder(
    r: MetricsResponse,
    encoded: Option<Seq<u8>>,
    format: Seq<char>,
)
    requires
        answers(r, encoded, format),
    ensures
        r.status == STATUS_OK <==> encoded is Some,
        r.status == STATUS_OK ==> r.content_type is Some && r.content_type->0@ == format,
        r.status != STATUS_OK ==> r.content_type is None && r.body@.len() == 0,
{
}

} // verus!
