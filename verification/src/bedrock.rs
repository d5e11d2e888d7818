//! The AWS Bedrock runtime: its wire model, the streaming text decoder,
//! and the AWS4-HMAC-SHA256 request signature.
//!
//! The digests come from outside crates and are named, not restated: the
//! signature construction around them is verified exactly.

use hmac::{KeyInit, Mac};
use sha2::Digest;
use vstd::prelude::*;
use vstd::string::StringExecFns;
use vstd::utf8::encode_utf8;

use crate::json::{
    json_of, json_to_text, obj_get, parse_json, spec_as_array, spec_as_str, spec_json_text,
    spec_obj_get, Json,
};
use crate::strutil::{has_prefix, hex_digit};
use crate::types::{FinishReason, StreamEvent};

verus! {

/// Configuration for Bedrock runtime calls.
#[derive(Debug, Clone, PartialEq, Eq)]
pub struct BedrockRuntimeConfig {
    /// The AWS access key ID.
    pub access_key_id: String,
    /// The AWS secret access key.
    pub secret_access_key: String,
    /// Optional session token (when using STS/IAM roles).
    pub session_token: Option<String>,
    /// AWS region, e.g. `us-east-1`.
    pub region: String,
    /// The runtime endpoint host.
    pub endpoint: String,
}

/// One message in a Bedrock conversation.
#[derive(Debug, PartialEq, Eq)]
pub struct BedrockMessage {
    pub role: String,
    pub content: Vec<BedrockContentBlock>,
}

/// One content block of a Bedrock message.
#[derive(Debug, PartialEq, Eq)]
pub enum BedrockContentBlock {
    Text(BedrockTextContentBlock),
    Image(BedrockImageContentBlock),
}

/// A text content block.
#[derive(Debug, PartialEq, Eq)]
pub struct BedrockTextContentBlock {
    pub text: String,
}

/// An image content block.
#[derive(Debug, PartialEq, Eq)]
pub struct BedrockImageContentBlock {
    pub source: String,
    pub detail: String,
}

/// Response body of a model invocation.
#[derive(Debug, PartialEq, Eq)]
pub struct InvokeModelResponse {
    pub input_text_token_count: u32,
    pub results: Vec<InvokeResult>,
}

/// One completion candidate.
#[derive(Debug, PartialEq, Eq)]
pub struct InvokeResult {
    pub token_count: u32,
    pub output_text: String,
    pub completion_reason: Option<String>,
}

/// The body of a provider error response.
#[derive(Debug, Clone, PartialEq, Eq)]
pub struct ErrorResponseDetails {
    pub message: String,
    pub typ: String,
}

/// One streamed text increment.
#[derive(Debug, Clone, PartialEq, Eq)]
pub struct ResponseOutputTextDelta {
    pub content_index: u32,
    pub delta: String,
    pub item_id: String,
    pub output_index: u32,
}

/// Maps a Bedrock completion reason onto the generic vocabulary; unknown
/// reasons map to `Other`.
pub fn string_to_finish_reason(s: &str) -> (r: FinishReason)
    ensures
        r == spec_string_to_finish_reason(s@),
{
    if crate::strutil::str_eq_str(s, "stopSequence") {
        FinishReason::Stop
    } else if crate::strutil::str_eq_str(s, "length") {
        FinishReason::Length
    } else {
        FinishReason::Other
    }
}

/// Specification of [`string_to_finish_reason`].
pub open spec fn spec_string_to_finish_reason(s: Seq<char>) -> FinishReason {
    if s == "stopSequence"@ {
        FinishReason::Stop
    } else if s == "length"@ {
        FinishReason::Length
    } else {
        FinishReason::Other
    }
}

/// Classifies a provider error code: a numeric HTTP status in the valid
/// range is classified as such, anything else is an internal error.
pub fn parse_error_code(code: String) -> (r: crate::types::ErrorCode)
    ensures
        r == spec_parse_error_code(code@),
{
    let chars = crate::strutil::str_to_chars(code.as_str());
    match crate::event_stream::parse_u64_digits(&chars) {
        Some(n) => {
            if 100 <= n && n <= 999 {
                crate::types::error_code_from_status(n as u16)
            } else {
                crate::types::ErrorCode::InternalError
            }
        },
        None => crate::types::ErrorCode::InternalError,
    }
}

/// Specification of [`parse_error_code`].
pub open spec fn spec_parse_error_code(code: Seq<char>) -> crate::types::ErrorCode {
    match crate::event_stream::parse_retry(code) {
        Some(n) => {
            if 100 <= n <= 999 {
                crate::types::spec_error_code_from_status(n as u16)
            } else {
                crate::types::ErrorCode::InternalError
            }
        },
        None => crate::types::ErrorCode::InternalError,
    }
}

/// The response metadata of a completed invocation: the first result's
/// completion reason, mapped; nothing else is reported.
pub fn create_response_metadata(resp: &InvokeModelResponse) -> (r: crate::types::ResponseMetadata)
    ensures
        r.finish_reason == (if resp.results@.len() > 0 {
            match resp.results@[0].completion_reason {
                Some(reason) => Some(spec_string_to_finish_reason(reason@)),
                None => None::<FinishReason>,
            }
        } else {
            None::<FinishReason>
        }),
        r.usage is None,
        r.provider_id is None,
        r.timestamp is None,
        r.provider_metadata_json is None,
{
    let finish_reason = if resp.results.len() > 0 {
        match &resp.results[0].completion_reason {
            Some(reason) => Some(string_to_finish_reason(reason.as_str())),
            None => None,
        }
    } else {
        None
    };
    crate::types::ResponseMetadata {
        finish_reason,
        usage: None,
        provider_id: None,
        timestamp: None,
        provider_metadata_json: None,
    }
}

/// Turns a completed invocation into a chat event: the first result's text
/// becomes the one content part, with the mapped completion reason; an
/// empty result list is an internal error.
pub fn process_model_response(resp: InvokeModelResponse) -> (r: crate::types::ChatEvent)
    ensures
        ({
            if resp.results@.len() == 0 {
                match r {
                    crate::types::ChatEvent::Error(e) => e.code
                        == crate::types::ErrorCode::InternalError && e.provider_error_json is None,
                    _ => false,
                }
            } else {
                match r {
                    crate::types::ChatEvent::Message(m) => {
                        &&& m.id@.len() == 0
                        &&& m.content@.len() == 1
                        &&& m.content@[0] == crate::types::ContentPart::Text(
                            resp.results@[0].output_text,
                        )
                        &&& m.tool_calls@.len() == 0
                        &&& m.metadata.finish_reason == (match resp.results@[0].completion_reason {
                            Some(reason) => Some(spec_string_to_finish_reason(reason@)),
                            None => None::<FinishReason>,
                        })
                        &&& m.metadata.usage is None
                        &&& m.metadata.provider_id is None
                        &&& m.metadata.timestamp is None
                        &&& m.metadata.provider_metadata_json is None
                    },
                    _ => false,
                }
            }
        }),
{
    let metadata = create_response_metadata(&resp);
    let mut results = resp.results;
    if results.len() == 0 {
        return crate::types::ChatEvent::Error(
            crate::types::Error {
                code: crate::types::ErrorCode::InternalError,
                message: String::from_str("Bedrock returned zero results"),
                provider_error_json: None,
            },
        );
    }
    let first = results.remove(0);
    let mut contents: Vec<crate::types::ContentPart> = Vec::new();
    contents.push(crate::types::ContentPart::Text(first.output_text));
    crate::types::ChatEvent::Message(
        crate::types::CompleteResponse {
            id: String::new(),
            content: contents,
            tool_calls: Vec::new(),
            metadata,
        },
    )
}

/// The HMAC-SHA-256 tag of a message under a key; a function of the two
/// alone.
pub uninterp spec fn hmac_sha256_of(key: Seq<u8>, msg: Seq<u8>) -> Seq<u8>;

/// The SHA-256 digest of a byte sequence; a function of it alone.
pub uninterp spec fn sha256_of(data: Seq<u8>) -> Seq<u8>;

/// The lowercase hex spelling of a byte sequence: two digits per byte.
pub open spec fn hex_of(b: Seq<u8>) -> Seq<char>
    decreases b.len(),
{
    if b.len() == 0 {
        Seq::empty()
    } else {
        hex_of(b.drop_last()) + seq![hex_digit(b.last() / 16), hex_digit(b.last() % 16)]
    }
}

/// Relies on `Hmac<Sha256>` (`new_from_slice`, `update`, `finalize`): the
/// 32-byte HMAC-SHA-256 tag of `msg` under `key`, a function of the two
/// alone.
#[verifier::external_body]
fn hmac_sign(key: &[u8], msg: &str) -> (r: Vec<u8>)
    ensures
        r@ == hmac_sha256_of(key@, encode_utf8(msg@)),
        r@.len() == 32,
{
    let mut mac = <hmac::Hmac<sha2::Sha256> as KeyInit>::new_from_slice(key).expect(
        "HMAC can take any key size",
    );
    mac.update(msg.as_bytes());
    mac.finalize().into_bytes().to_vec()
}

/// Relies on `Sha256::digest`: the 32-byte SHA-256 digest of the data, a
/// function of it alone.
#[verifier::external_body]
fn sha256(data: &[u8]) -> (r: Vec<u8>)
    ensures
        r@ == sha256_of(data@),
        r@.len() == 32,
{
    sha2::Sha256::digest(data).to_vec()
}

/// Spells bytes in lowercase hex, two digits per byte.
fn hex_encode(b: &Vec<u8>) -> (r: String)
    ensures
        r@ == hex_of(b@),
{
    let n = b.len();
    let mut out: Vec<char> = Vec::new();
    let mut i: usize = 0;
    proof {
        assert(out@ =~= hex_of(b@.subrange(0, 0)));
    }
    while i < n
        invariant
            i <= n,
            n == b@.len(),
            out@ == hex_of(b@.subrange(0, i as int)),
        decreases n - i,
    {
        let x = b[i];
        let hi: u8 = x / 16;
        let lo: u8 = x % 16;
        let hc: char = ((if hi < 10 {
            48 + hi
        } else {
            87 + hi
        }) as u8) as char;
        let lc: char = ((if lo < 10 {
            48 + lo
        } else {
            87 + lo
        }) as u8) as char;
        out.push(hc);
        out.push(lc);
        i = i + 1;
        proof {
            assert(hc == hex_digit(b@[i - 1] / 16));
            assert(lc == hex_digit(b@[i - 1] % 16));
            assert(b@.subrange(0, i as int).drop_last() =~= b@.subrange(0, i - 1));
            assert(b@.subrange(0, i as int).last() == b@[i - 1]);
            assert(out@ =~= hex_of(b@.subrange(0, i as int)));
        }
    }
    proof {
        assert(b@.subrange(0, n as int) =~= b@);
    }
    crate::strutil::chars_to_string(&out)
}

/// Relies on chrono's `Utc::now` and `format`: the current UTC time spelled
/// as a compact timestamp and as its date part.  The values depend on the
/// clock, so nothing further is promised of them.
#[verifier::external_body]
fn now_amz_date() -> (r: (String, String)) {
    let now = chrono::Utc::now();
    (now.format("%Y%m%dT%H%M%SZ").to_string(), now.format("%Y%m%d").to_string())
}

/// The UTF-8 bytes of a char sequence.
pub open spec fn utf8(s: Seq<char>) -> Seq<u8> {
    encode_utf8(s)
}

/// The AWS4 signing key: the date, region, service and terminator chained
/// through HMAC-SHA-256, starting from `"AWS4"` plus the secret key.
pub open spec fn spec_signing_key(secret: Seq<char>, date_stamp: Seq<char>, region: Seq<char>) -> Seq<
    u8,
> {
    let k_secret = utf8("AWS4"@ + secret);
    let k_date = hmac_sha256_of(k_secret, utf8(date_stamp));
    let k_region = hmac_sha256_of(k_date, utf8(region));
    let k_service = hmac_sha256_of(k_region, utf8("bedrock-runtime"@));
    hmac_sha256_of(k_service, utf8("aws4_request"@))
}

/// The canonical request text signed for one Bedrock call.
pub open spec fn spec_canonical_request(
    method: Seq<char>,
    canonical_uri: Seq<char>,
    host: Seq<char>,
    amz_date: Seq<char>,
    body_sha256: Seq<char>,
) -> Seq<char> {
    method + "\n"@ + canonical_uri + "\ncontentType=application/json\n"@ + ("host:"@ + host
        + "\nx-amz-date:"@ + amz_date + "\nx-amz-content-sha256:"@ + body_sha256 + "\n"@)
        + "\nhost;x-amz-date;x-amz-content-sha256\n"@ + body_sha256
}

/// The credential scope of one Bedrock call.
pub open spec fn spec_credential_scope(date_stamp: Seq<char>, region: Seq<char>) -> Seq<char> {
    date_stamp + "/"@ + region + "/bedrock-runtime/aws4_request"@
}

/// The string-to-sign of one Bedrock call.
pub open spec fn spec_string_to_sign(
    amz_date: Seq<char>,
    scope: Seq<char>,
    hashed_request: Seq<char>,
) -> Seq<char> {
    "AWS4-HMAC-SHA256\n"@ + amz_date + "\n"@ + scope + "\n"@ + hashed_request
}

/// The signature hex of one Bedrock call.
pub open spec fn spec_signature(
    config: BedrockRuntimeConfig,
    method: Seq<char>,
    canonical_uri: Seq<char>,
    body: Seq<char>,
    amz_date: Seq<char>,
    date_stamp: Seq<char>,
) -> Seq<char> {
    let body_sha = hex_of(sha256_of(utf8(body)));
    let canonical = spec_canonical_request(
        method,
        canonical_uri,
        config.endpoint@,
        amz_date,
        body_sha,
    );
    let hashed = hex_of(sha256_of(utf8(canonical)));
    let scope = spec_credential_scope(date_stamp, config.region@);
    let to_sign = spec_string_to_sign(amz_date, scope, hashed);
    let key = spec_signing_key(config.secret_access_key@, date_stamp, config.region@);
    hex_of(hmac_sha256_of(key, utf8(to_sign)))
}

/// The Authorization header of one Bedrock call.
pub open spec fn spec_auth_header(
    config: BedrockRuntimeConfig,
    method: Seq<char>,
    canonical_uri: Seq<char>,
    body: Seq<char>,
    amz_date: Seq<char>,
    date_stamp: Seq<char>,
) -> Seq<char> {
    "AWS4-HMAC-SHA256 Credential="@ + config.access_key_id@ + "/"@ + spec_credential_scope(
        date_stamp,
        config.region@,
    ) + ", SignedHeaders=host;x-amz-date;x-amz-content-sha256, Signature="@ + spec_signature(
        config,
        method,
        canonical_uri,
        body,
        amz_date,
        date_stamp,
    )
}

/// Builds the AWS4-HMAC-SHA256 signature pieces for one request at the
/// given time: the timestamp echoed back, the Authorization header, and
/// the body's SHA-256 hex.
pub fn sign_request(
    config: &BedrockRuntimeConfig,
    method: &str,
    canonical_uri: &str,
    body: &str,
    amz_date: &str,
    date_stamp: &str,
) -> (r: (String, String, String))
    ensures
        r.0@ == amz_date@,
        r.1@ == spec_auth_header(*config, method@, canonical_uri@, body@, amz_date@, date_stamp@),
        r.2@ == hex_of(sha256_of(utf8(body@))),
{
    let body_sha256 = hex_encode(&sha256(body.as_bytes()));

    let canonical_headers = String::from_str("host:").concat(config.endpoint.as_str()).concat(
        "\nx-amz-date:",
    ).concat(amz_date).concat("\nx-amz-content-sha256:").concat(body_sha256.as_str()).concat("\n");
    let canonical_request = String::from_str(method).concat("\n").concat(canonical_uri).concat(
        "\ncontentType=application/json\n",
    ).concat(canonical_headers.as_str()).concat("\nhost;x-amz-date;x-amz-content-sha256\n").concat(
        body_sha256.as_str(),
    );
    proof {
        assert(canonical_request@ =~= spec_canonical_request(
            method@,
            canonical_uri@,
            config.endpoint@,
            amz_date@,
            hex_of(sha256_of(utf8(body@))),
        ));
    }
    let hashed_request = hex_encode(&sha256(canonical_request.as_str().as_bytes()));

    let credential_scope = String::from_str(date_stamp).concat("/").concat(
        config.region.as_str(),
    ).concat("/bedrock-runtime/aws4_request");
    proof {
        assert(credential_scope@ =~= spec_credential_scope(date_stamp@, config.region@));
    }
    let string_to_sign = String::from_str("AWS4-HMAC-SHA256\n").concat(amz_date).concat(
        "\n",
    ).concat(credential_scope.as_str()).concat("\n").concat(hashed_request.as_str());
    proof {
        assert(string_to_sign@ =~= spec_string_to_sign(
            amz_date@,
            spec_credential_scope(date_stamp@, config.region@),
            hex_of(sha256_of(utf8(canonical_request@))),
        ));
    }

    let k_secret = String::from_str("AWS4").concat(config.secret_access_key.as_str());
    proof {
        assert(k_secret@ =~= "AWS4"@ + config.secret_access_key@);
    }
    let k_date = hmac_sign(k_secret.as_str().as_bytes(), date_stamp);
    let k_region = hmac_sign(k_date.as_slice(), config.region.as_str());
    let k_service = hmac_sign(k_region.as_slice(), "bedrock-runtime");
    let k_signing = hmac_sign(k_service.as_slice(), "aws4_request");
    let signature = hex_encode(&hmac_sign(k_signing.as_slice(), string_to_sign.as_str()));
    proof {
        assert(signature@ == spec_signature(
            *config,
            method@,
            canonical_uri@,
            body@,
            amz_date@,
            date_stamp@,
        ));
    }

    let auth_header = String::from_str("AWS4-HMAC-SHA256 Credential=").concat(
        config.access_key_id.as_str(),
    ).concat("/").concat(credential_scope.as_str()).concat(
        ", SignedHeaders=host;x-amz-date;x-amz-content-sha256, Signature=",
    ).concat(signature.as_str());
    proof {
        assert(auth_header@ =~= spec_auth_header(
            *config,
            method@,
            canonical_uri@,
            body@,
            amz_date@,
            date_stamp@,
        ));
    }

    let amz = String::from_str(amz_date);
    (amz, auth_header, body_sha256)
}

/// One raw stream record, classified by its `type` discriminator.
#[derive(Debug)]
pub enum BedrockStreamMessage {
    /// The response failed; carries the error code text and message.
    Failed { code: String, message: String },
    /// The response completed; carries the first result's completion reason.
    Completed { completion_reason: Option<String> },
    /// One streamed text increment.
    TextDelta { delta: String },
    /// One completed function call.
    FunctionCall { call_id: String, name: String, arguments_json: String },
    /// A record with an unknown or uninteresting discriminator; ignored.
    Ignored,
    /// A record that does not fit the expected shape; carries the error
    /// reported to the caller.
    Malformed { error: String },
}

/// True when `m` is the malformed class carrying exactly this text.
pub open spec fn is_malformed(m: BedrockStreamMessage, text: Seq<char>) -> bool {
    match m {
        BedrockStreamMessage::Malformed { error } => error@ == text,
        _ => false,
    }
}

/// How a parsed record must be classified, for every shape of the value:
/// the `type` discriminator picks the class, each class's fields are
/// pinned (a function call's argument text by the library's own JSON
/// spelling), and every malformed shape is pinned to its fault text.
pub open spec fn spec_classify_rel(j: Json, m: BedrockStreamMessage) -> bool {
    match spec_as_str(spec_obj_get(j, "type"@)) {
        Some(t) => {
            if t@ == "response.failed"@ {
                match spec_obj_get(j, "response"@) {
                    Some(response) => {
                        let details = match spec_obj_get(response, "error"@) {
                            Some(e) => match (
                                spec_as_str(spec_obj_get(e, "type"@)),
                                spec_as_str(spec_obj_get(e, "message"@)),
                            ) {
                                (Some(c), Some(msg)) => Some((c, msg)),
                                _ => None,
                            },
                            None => None,
                        };
                        match details {
                            Some((code, message)) => m == (BedrockStreamMessage::Failed {
                                code,
                                message,
                            }),
                            None => is_malformed(
                                m,
                                "Failed to parse ErrorResponse: missing error body"@,
                            ),
                        }
                    },
                    None => is_malformed(
                        m,
                        "Unexpected stream event format, does not have 'response' field"@,
                    ),
                }
            } else if t@ == "response.completed"@ {
                match spec_obj_get(j, "response"@) {
                    Some(response) => {
                        let items = spec_as_array(spec_obj_get(response, "results"@));
                        let completion_reason = if items.len() > 0 {
                            spec_as_str(spec_obj_get(items[0], "completionReason"@))
                        } else {
                            None
                        };
                        m == (BedrockStreamMessage::Completed { completion_reason })
                    },
                    None => is_malformed(
                        m,
                        "Unexpected stream event format, does not have 'response' field"@,
                    ),
                }
            } else if t@ == "response.output_text.delta"@ {
                match spec_obj_get(j, "delta"@) {
                    Some(d) => match d {
                        Json::Str(delta) => m == (BedrockStreamMessage::TextDelta { delta }),
                        _ => is_malformed(
                            m,
                            "Failed to deserialize stream event: delta is not a string"@,
                        ),
                    },
                    None => is_malformed(
                        m,
                        "Failed to deserialize stream event: missing 'delta' field"@,
                    ),
                }
            } else if t@ == "response.output_item.done"@ {
                match spec_obj_get(j, "item"@) {
                    Some(item) => match spec_as_str(spec_obj_get(item, "type"@)) {
                        Some(it) => if it@ == "function_call"@ {
                            match (
                                spec_as_str(spec_obj_get(item, "call_id"@)),
                                spec_as_str(spec_obj_get(item, "name"@)),
                                spec_obj_get(item, "arguments"@),
                            ) {
                                (Some(call_id), Some(name), Some(a)) => match m {
                                    BedrockStreamMessage::FunctionCall {
                                        call_id: c,
                                        name: n,
                                        arguments_json,
                                    } => c == call_id && n == name && arguments_json@
                                        == spec_json_text(a),
                                    _ => false,
                                },
                                _ => is_malformed(
                                    m,
                                    "Failed to deserialize stream event: malformed function call"@,
                                ),
                            }
                        } else {
                            m == BedrockStreamMessage::Ignored
                        },
                        None => is_malformed(
                            m,
                            "Failed to deserialize stream event: item has no type"@,
                        ),
                    },
                    None => is_malformed(
                        m,
                        "Failed to deserialize stream event: missing 'item' field"@,
                    ),
                }
            } else {
                m == BedrockStreamMessage::Ignored
            }
        },
        None => is_malformed(
            m,
            "Unexpected stream event format, does not have 'type' field"@,
        ),
    }
}

/// Classifies one raw stream record: `json_of` names what the payload
/// parses as, and the classification of that value is pinned by
/// [`spec_classify_rel`].
pub fn classify_message(raw: &str) -> (m: BedrockStreamMessage)
    ensures
        match json_of(raw@) {
            Some(j) => spec_classify_rel(j, m),
            None => match m {
                BedrockStreamMessage::Malformed { error } => has_prefix(
                    error@,
                    "Failed to deserialize stream event: "@,
                ),
                _ => false,
            },
        },
{
    let json = match parse_json(raw) {
        Ok(v) => v,
        Err(e) => {
            let error = String::from_str("Failed to deserialize stream event: ").concat(
                e.as_str(),
            );
            proof {
                assert(error@.subrange(
                    0,
                    "Failed to deserialize stream event: "@.len() as int,
                ) =~= "Failed to deserialize stream event: "@);
            }
            return BedrockStreamMessage::Malformed { error };
        },
    };
    let typ = match crate::json::get_str(&json, "type") {
        Some(t) => t,
        None => {
            return BedrockStreamMessage::Malformed {
                error: String::from_str(
                    "Unexpected stream event format, does not have 'type' field",
                ),
            };
        },
    };
    if crate::strutil::str_eq_str(typ.as_str(), "response.failed") {
        let response = match obj_get(&json, "response") {
            Some(r) => r,
            None => {
                return BedrockStreamMessage::Malformed {
                    error: String::from_str(
                        "Unexpected stream event format, does not have 'response' field",
                    ),
                };
            },
        };
        let details = match obj_get(response, "error") {
            Some(e) => {
                let code = crate::json::get_str(e, "type");
                let message = crate::json::get_str(e, "message");
                match (code, message) {
                    (Some(c), Some(msg)) => Some((c, msg)),
                    _ => None,
                }
            },
            None => None,
        };
        match details {
            Some((code, message)) => BedrockStreamMessage::Failed { code, message },
            None => BedrockStreamMessage::Malformed {
                error: String::from_str("Failed to parse ErrorResponse: missing error body"),
            },
        }
    } else if crate::strutil::str_eq_str(typ.as_str(), "response.completed") {
        let response = match obj_get(&json, "response") {
            Some(r) => r,
            None => {
                return BedrockStreamMessage::Malformed {
                    error: String::from_str(
                        "Unexpected stream event format, does not have 'response' field",
                    ),
                };
            },
        };
        let completion_reason = match obj_get(response, "results") {
            Some(results) => match results {
                Json::Array(items) => if items.len() > 0 {
                    crate::json::get_str(&items[0], "completionReason")
                } else {
                    None
                },
                _ => None,
            },
            None => None,
        };
        BedrockStreamMessage::Completed { completion_reason }
    } else if crate::strutil::str_eq_str(typ.as_str(), "response.output_text.delta") {
        match obj_get(&json, "delta") {
            Some(d) => match d {
                Json::Str(delta) => BedrockStreamMessage::TextDelta { delta: delta.clone() },
                _ => BedrockStreamMessage::Malformed {
                    error: String::from_str(
                        "Failed to deserialize stream event: delta is not a string",
                    ),
                },
            },
            None => BedrockStreamMessage::Malformed {
                error: String::from_str(
                    "Failed to deserialize stream event: missing 'delta' field",
                ),
            },
        }
    } else if crate::strutil::str_eq_str(typ.as_str(), "response.output_item.done") {
        let item = match obj_get(&json, "item") {
            Some(i) => i,
            None => {
                return BedrockStreamMessage::Malformed {
                    error: String::from_str(
                        "Failed to deserialize stream event: missing 'item' field",
                    ),
                };
            },
        };
        match crate::json::get_str(item, "type") {
            Some(it) => {
                if crate::strutil::str_eq_str(it.as_str(), "function_call") {
                    let call_id = crate::json::get_str(item, "call_id");
                    let name = crate::json::get_str(item, "name");
                    let arguments = obj_get(item, "arguments");
                    match (call_id, name, arguments) {
                        (Some(call_id), Some(name), Some(a)) => {
                            let arguments_json = json_to_text(a);
                            BedrockStreamMessage::FunctionCall { call_id, name, arguments_json }
                        },
                        _ => BedrockStreamMessage::Malformed {
                            error: String::from_str(
                                "Failed to deserialize stream event: malformed function call",
                            ),
                        },
                    }
                } else {
                    BedrockStreamMessage::Ignored
                }
            },
            None => BedrockStreamMessage::Malformed {
                error: String::from_str("Failed to deserialize stream event: item has no type"),
            },
        }
    } else {
        BedrockStreamMessage::Ignored
    }
}

/// Marks a classified record as a witness for the decoder's contract;
/// always true, used only to steer quantifier instantiation.
pub open spec fn bedrock_witness(m: BedrockStreamMessage) -> bool {
    true
}

/// What one classified record does to the decoder: the exact result for
/// every class.  This decoder keeps no accumulation state.
pub open spec fn decode_step_rel(
    m: BedrockStreamMessage,
    r: Result<Option<StreamEvent>, String>,
) -> bool {
    match m {
        BedrockStreamMessage::Failed { code, message } => match r {
            Ok(Some(StreamEvent::Error(e))) => e.code == spec_parse_error_code(code@) && e.message
                == message && e.provider_error_json is None,
            _ => false,
        },
        BedrockStreamMessage::Completed { completion_reason } => match r {
            Ok(Some(StreamEvent::Finish(meta))) => {
                &&& meta.finish_reason == (match completion_reason {
                    Some(reason) => Some(spec_string_to_finish_reason(reason@)),
                    None => None::<FinishReason>,
                })
                &&& meta.usage is None
                &&& meta.provider_id is None
                &&& meta.timestamp is None
                &&& meta.provider_metadata_json is None
            },
            _ => false,
        },
        BedrockStreamMessage::TextDelta { delta } => match r {
            Ok(Some(StreamEvent::Delta(d))) => (match d.content {
                Some(parts) => parts@ == seq![crate::types::ContentPart::Text(delta)],
                None => false,
            }) && d.tool_calls is None,
            _ => false,
        },
        BedrockStreamMessage::FunctionCall { call_id, name, arguments_json } => match r {
            Ok(Some(StreamEvent::Delta(d))) => d.content is None && (match d.tool_calls {
                Some(calls) => calls@ == seq![
                    crate::types::ToolCall { id: call_id, name, arguments_json },
                ],
                None => false,
            }),
            _ => false,
        },
        BedrockStreamMessage::Ignored => r == Ok::<Option<StreamEvent>, String>(None),
        BedrockStreamMessage::Malformed { error } => r == Err::<Option<StreamEvent>, String>(error),
    }
}

/// The Bedrock stream decoder; it keeps no accumulation state of its own.
#[derive(Debug)]
pub struct BedrockChatStream {
    _private: bool,
}

impl BedrockChatStream {
    /// A fresh decoder.
    pub fn new() -> BedrockChatStream {
        BedrockChatStream { _private: false }
    }

    /// Applies one classified record.
    pub fn decode_parsed(&mut self, m: BedrockStreamMessage) -> (r: Result<
        Option<StreamEvent>,
        String,
    >)
        ensures
            decode_step_rel(m, r),
    {
        match m {
            BedrockStreamMessage::Failed { code, message } => Ok(
                Some(
                    StreamEvent::Error(
                        crate::types::Error {
                            code: parse_error_code(code),
                            message,
                            provider_error_json: None,
                        },
                    ),
                ),
            ),
            BedrockStreamMessage::Completed { completion_reason } => {
                let finish_reason = match completion_reason {
                    Some(reason) => Some(string_to_finish_reason(reason.as_str())),
                    None => None,
                };
                Ok(
                    Some(
                        StreamEvent::Finish(
                            crate::types::ResponseMetadata {
                                finish_reason,
                                usage: None,
                                provider_id: None,
                                timestamp: None,
                                provider_metadata_json: None,
                            },
                        ),
                    ),
                )
            },
            BedrockStreamMessage::TextDelta { delta } => {
                let mut parts: Vec<crate::types::ContentPart> = Vec::new();
                parts.push(crate::types::ContentPart::Text(delta));
                Ok(
                    Some(
                        StreamEvent::Delta(
                            crate::types::StreamDelta { content: Some(parts), tool_calls: None },
                        ),
                    ),
                )
            },
            BedrockStreamMessage::FunctionCall { call_id, name, arguments_json } => {
                let mut calls: Vec<crate::types::ToolCall> = Vec::new();
                calls.push(crate::types::ToolCall { id: call_id, name, arguments_json });
                Ok(
                    Some(
                        StreamEvent::Delta(
                            crate::types::StreamDelta { content: None, tool_calls: Some(calls) },
                        ),
                    ),
                )
            },
            BedrockStreamMessage::Ignored => Ok(None),
            BedrockStreamMessage::Malformed { error } => Err(error),
        }
    }
}

impl crate::chat_stream::LlmChatStreamState for BedrockChatStream {
    /// The payload parses as `json_of` says; its classification is pinned
    /// by [`spec_classify_rel`] and drives the exact step relation.
    open spec fn decode_rel(
        pre: BedrockChatStream,
        raw: Seq<char>,
        post: BedrockChatStream,
        r: Result<Option<StreamEvent>, String>,
    ) -> bool {
        match json_of(raw) {
            Some(j) => exists|m: BedrockStreamMessage|
                #[trigger] bedrock_witness(m) && spec_classify_rel(j, m) && decode_step_rel(m, r),
            None => match r {
                Err(msg) => has_prefix(msg@, "Failed to deserialize stream event: "@),
                _ => false,
            },
        }
    }

    fn decode_message(&mut self, raw: &str) -> (r: Result<Option<StreamEvent>, String>) {
        let m = classify_message(raw);
        proof {
            assert(bedrock_witness(m));
        }
        self.decode_parsed(m)
    }
}

/// Builds the signature pieces for one request at the current time, as
/// [`sign_request`] does with the clock's timestamp.
pub fn sign_request_now(
    config: &BedrockRuntimeConfig,
    method: &str,
    canonical_uri: &str,
    body: &str,
) -> (r: (String, String, String))
    ensures
        exists|amz_date: Seq<char>, date_stamp: Seq<char>|
            r.0@ == amz_date && r.1@ == #[trigger] spec_auth_header(
                *config,
                method@,
                canonical_uri@,
                body@,
                amz_date,
                date_stamp,
            ) && r.2@ == hex_of(sha256_of(utf8(body@))),
{
    let (amz_date, date_stamp) = now_amz_date();
    let r = sign_request(config, method, canonical_uri, body, amz_date.as_str(), date_stamp.as_str());
    proof {
        assert(r.0@ == amz_date@ && r.1@ == spec_auth_header(
            *config,
            method@,
            canonical_uri@,
            body@,
            amz_date@,
            date_stamp@,
        ) && r.2@ == hex_of(sha256_of(utf8(body@))));
    }
    r
}

} // verus!
