//! The trigger client: shapes the two outbound calls to the orchestration
//! service and interprets their responses. The driver owns the HTTP transport;
//! what stands here builds each request's path, body and authorization header
//! exactly, and decides what every possible response means. A deployment is
//! looked up by a filter query on flow and deployment name; a run is created
//! under the returned deployment id; both bodies are JSON text framed and
//! escaped here.

use vstd::prelude::*;
use vstd::string::{StrSliceExecFns, StringExecFns};

use crate::config::Settings;
use crate::interfaces::Error;
use crate::json::{first_id_of, json_err_of, json_ok, read_first_id, read_run_name, run_name_of};

verus! {

/// The escaped form of one character inside a JSON string literal: quote and
/// backslash take a backslash escape, the five named control characters take
/// their short escapes, any other control character takes its `\u00` form, and
/// every other character stands as itself.
pub open spec fn escape_char(c: char) -> Seq<char> {
    if c == '"' {
        "\\\""@
    } else if c == '\\' {
        "\\\\"@
    } else if c == '\u{8}' {
        "\\b"@
    } else if c == '\t' {
        "\\t"@
    } else if c == '\n' {
        "\\n"@
    } else if c == '\u{c}' {
        "\\f"@
    } else if c == '\r' {
        "\\r"@
    } else if (c as u32) < 32 {
        "\\u00"@ + seq![hex_digit((c as u32) / 16)] + seq![hex_digit((c as u32) % 16)]
    } else {
        seq![c]
    }
}

/// The lower-case hex digit of a value below sixteen.
pub open spec fn hex_digit(n: u32) -> char {
    if n == 0 {
        '0'
    } else if n == 1 {
        '1'
    } else if n == 2 {
        '2'
    } else if n == 3 {
        '3'
    } else if n == 4 {
        '4'
    } else if n == 5 {
        '5'
    } else if n == 6 {
        '6'
    } else if n == 7 {
        '7'
    } else if n == 8 {
        '8'
    } else if n == 9 {
        '9'
    } else if n == 10 {
        'a'
    } else if n == 11 {
        'b'
    } else if n == 12 {
        'c'
    } else if n == 13 {
        'd'
    } else if n == 14 {
        'e'
    } else {
        'f'
    }
}

fn hex_digit_str(n: u32) -> (r: &'static str)
    requires
        n < 16,
    ensures
        r@ == seq![hex_digit(n)],
{
    if n == 0 {
        proof {
            reveal_strlit("0");
        }
        assert("0"@ =~= seq![hex_digit(n)]);
        "0"
    } else if n == 1 {
        proof {
            reveal_strlit("1");
        }
        assert("1"@ =~= seq![hex_digit(n)]);
        "1"
    } else if n == 2 {
        proof {
            reveal_strlit("2");
        }
        assert("2"@ =~= seq![hex_digit(n)]);
        "2"
    } else if n == 3 {
        proof {
            reveal_strlit("3");
        }
        assert("3"@ =~= seq![hex_digit(n)]);
        "3"
    } else if n == 4 {
        proof {
            reveal_strlit("4");
        }
        assert("4"@ =~= seq![hex_digit(n)]);
        "4"
    } else if n == 5 {
        proof {
            reveal_strlit("5");
        }
        assert("5"@ =~= seq![hex_digit(n)]);
        "5"
    } else if n == 6 {
        proof {
            reveal_strlit("6");
        }
        assert("6"@ =~= seq![hex_digit(n)]);
        "6"
    } else if n == 7 {
        proof {
            reveal_strlit("7");
        }
        assert("7"@ =~= seq![hex_digit(n)]);
        "7"
    } else if n == 8 {
        proof {
            reveal_strlit("8");
        }
        assert("8"@ =~= seq![hex_digit(n)]);
        "8"
    } else if n == 9 {
        proof {
            reveal_strlit("9");
        }
        assert("9"@ =~= seq![hex_digit(n)]);
        "9"
    } else if n == 10 {
        proof {
            reveal_strlit("a");
        }
        assert("a"@ =~= seq![hex_digit(n)]);
        "a"
    } else if n == 11 {
        proof {
            reveal_strlit("b");
        }
        assert("b"@ =~= seq![hex_digit(n)]);
        "b"
    } else if n == 12 {
        proof {
            reveal_strlit("c");
        }
        assert("c"@ =~= seq![hex_digit(n)]);
        "c"
    } else if n == 13 {
        proof {
            reveal_strlit("d");
        }
        assert("d"@ =~= seq![hex_digit(n)]);
        "d"
    } else if n == 14 {
        proof {
            reveal_strlit("e");
        }
        assert("e"@ =~= seq![hex_digit(n)]);
        "e"
    } else {
        proof {
            reveal_strlit("f");
        }
        assert("f"@ =~= seq![hex_digit(n)]);
        "f"
    }
}

/// The whole text escaped character by character.
pub open spec fn json_escape(s: Seq<char>) -> Seq<char>
    decreases s.len(),
{
    if s.len() == 0 {
        Seq::<char>::empty()
    } else {
        json_escape(s.drop_last()) + escape_char(s.last())
    }
}

proof fn lemma_json_escape_snoc(s: Seq<char>, i: int)
    requires
        0 <= i < s.len(),
    ensures
        json_escape(s.subrange(0, i + 1)) == json_escape(s.subrange(0, i)) + escape_char(s[i]),
{
    assert(s.subrange(0, i + 1).drop_last() =~= s.subrange(0, i));
    assert(s.subrange(0, i + 1).last() == s[i]);
}

/// Escapes a name for splicing into a JSON string literal, exactly as the
/// request bodies need it.
pub fn escape_json_string(s: &str) -> (r: String)
    ensures
        r@ == json_escape(s@),
{
    let n = s.unicode_len();
    let mut out = String::new();
    proof {
        assert(s@.subrange(0, 0) =~= Seq::<char>::empty());
    }
    for i in 0..n
        invariant
            n == s@.len(),
            out@ == json_escape(s@.subrange(0, i as int)),
    {
        let c = s.get_char(i);
        proof {
            lemma_json_escape_snoc(s@, i as int);
        }
        let ghost prev = out@;
        if c == '"' {
            out.append("\\\"");
        } else if c == '\\' {
            out.append("\\\\");
        } else if c == '\u{8}' {
            out.append("\\b");
        } else if c == '\t' {
            out.append("\\t");
        } else if c == '\n' {
            out.append("\\n");
        } else if c == '\u{c}' {
            out.append("\\f");
        } else if c == '\r' {
            out.append("\\r");
        } else if (c as u32) < 32 {
            out.append("\\u00");
            out.append(hex_digit_str((c as u32) / 16));
            out.append(hex_digit_str((c as u32) % 16));
            proof {
                assert(out@ =~= prev + escape_char(c));
            }
        } else {
            out.append(s.substring_char(i, i + 1));
            proof {
                assert(s@.subrange(i as int, i as int + 1) =~= seq![s@[i as int]]);
            }
        }
    }
    proof {
        assert(s@.subrange(0, n as int) =~= s@);
    }
    out
}

/// The body of the deployment filter query: a case-sensitive "like" match on
/// both names, exactly as the service's filter endpoint expects it.
pub open spec fn filter_body_spec(flow: Seq<char>, deployment: Seq<char>) -> Seq<char> {
    "{\"flows\":{\"name\":{\"like_\":\""@ + json_escape(flow)
        + "\"}},\"deployments\":{\"name\":{\"like_\":\""@ + json_escape(deployment) + "\"}}}"@
}

pub fn build_filter_body(flow_name: &str, deployment_name: &str) -> (r: String)
    ensures
        r@ == filter_body_spec(flow_name@, deployment_name@),
{
    let r = String::from_str("{\"flows\":{\"name\":{\"like_\":\"").concat(
        escape_json_string(flow_name).as_str(),
    ).concat("\"}},\"deployments\":{\"name\":{\"like_\":\"").concat(
        escape_json_string(deployment_name).as_str(),
    ).concat("\"}}}");
    proof {
        assert(r@ =~= filter_body_spec(flow_name@, deployment_name@));
    }
    r
}

/// The path of the deployment filter query.
pub fn build_filter_path(prefect_uri: &str) -> (r: String)
    ensures
        r@ == prefect_uri@ + "/deployments/filter"@,
{
    String::from_str(prefect_uri).concat("/deployments/filter")
}

/// The path of the create-run call for a deployment id.
pub fn build_create_run_path(prefect_uri: &str, deployment_id: &str) -> (r: String)
    ensures
        r@ == prefect_uri@ + "/deployments/"@ + deployment_id@ + "/create_flow_run"@,
{
    let r = String::from_str(prefect_uri).concat("/deployments/").concat(deployment_id).concat(
        "/create_flow_run",
    );
    proof {
        assert(r@ =~= prefect_uri@ + "/deployments/"@ + deployment_id@ + "/create_flow_run"@);
    }
    r
}

/// The body of the create-run call: the parameters object passed through
/// untouched from the inbound message, or empty when the message carried none.
pub fn build_create_run_body(parameters: &Option<String>) -> (r: String)
    ensures
        parameters matches Some(p) ==> r@ == "{\"parameters\":"@ + p@ + "}"@,
        parameters is None ==> r@ == "{}"@,
{
    match parameters {
        Some(p) => {
            let r = String::from_str("{\"parameters\":").concat(p.as_str()).concat("}");
            proof {
                assert(r@ =~= "{\"parameters\":"@ + p@ + "}"@);
            }
            r
        },
        None => String::from_str("{}"),
    }
}

/// The authorization header value attached exactly when a token is present.
pub fn build_bearer_header(token: &str) -> (r: String)
    ensures
        r@ == "Bearer "@ + token@,
{
    String::from_str("Bearer ").concat(token)
}

/// The error reported when the deployment lookup's response is not JSON: a
/// routing-kind failure carrying the parser's words, distinguishing bad
/// credentials or an unreachable service from a plain not-found.
pub fn bad_filter_response_error(detail: &str) -> (r: Error)
    ensures
        r matches Error::PrefectApiError(m) && m@ == "Deployment ID call does not return JSON. Got "@
            + detail@ + ". Are credentials set correctly?"@,
{
    let m = String::from_str("Deployment ID call does not return JSON. Got ").concat(detail).concat(
        ". Are credentials set correctly?",
    );
    proof {
        assert(m@ =~= "Deployment ID call does not return JSON. Got "@ + detail@
            + ". Are credentials set correctly?"@);
    }
    Error::PrefectApiError(m)
}

/// What an extracted deployment id means: the id itself, or the not-found-kind
/// failure when the response carried none.
pub fn deployment_id_result(id: Option<String>) -> (r: Result<String, Error>)
    ensures
        id matches Some(v) ==> r == Ok::<String, Error>(v),
        id is None ==> (r matches Err(e) && e matches Error::PrefectApiError(m) && m@
            == "Unable to find deployment ID for the given flow/deployment"@),
{
    match id {
        Some(v) => Ok(v),
        None => Err(
            Error::PrefectApiError(
                String::from_str("Unable to find deployment ID for the given flow/deployment"),
            ),
        ),
    }
}

/// What an extracted run name means: the server-assigned name, or a
/// routing-kind failure when the response carried none; a missing field is
/// surfaced, never swallowed.
pub fn run_name_result(name: Option<String>) -> (r: Result<String, Error>)
    ensures
        name matches Some(v) ==> r == Ok::<String, Error>(v),
        name is None ==> (r matches Err(e) && e matches Error::PrefectApiError(m) && m@
            == "Unable to get name from the returned json"@),
{
    match name {
        Some(v) => Ok(v),
        None => Err(
            Error::PrefectApiError(String::from_str("Unable to get name from the returned json")),
        ),
    }
}

/// Interprets the deployment lookup's response text: the first result's `id`
/// field is the deployment id; a response that is not JSON carries the
/// parser's words in a routing-kind failure, and one without an id is the
/// not-found failure — never a success.
pub fn extract_deployment_id(response_text: &str) -> (r: Result<String, Error>)
    ensures
        !json_ok(response_text@) ==> (r matches Err(e) && e matches Error::PrefectApiError(m) && m@
            == "Deployment ID call does not return JSON. Got "@ + json_err_of(response_text@)
            + ". Are credentials set correctly?"@),
        json_ok(response_text@) ==> (match first_id_of(response_text@) {
            Some(id) => r matches Ok(v) && v@ == id,
            None => r matches Err(e) && (e matches Error::PrefectApiError(m) && m@
                == "Unable to find deployment ID for the given flow/deployment"@),
        }),
        r matches Err(e) ==> e is PrefectApiError,
{
    match read_first_id(response_text) {
        Ok(id) => deployment_id_result(id),
        Err(e) => Err(bad_filter_response_error(e.as_str())),
    }
}

/// The error reported when the create-run response is not JSON.
pub fn bad_create_run_response_error(detail: &str) -> (r: Error)
    ensures
        r matches Error::PrefectApiError(m) && m@ == "Create flow run call does not return JSON. Got "@
            + detail@,
{
    Error::PrefectApiError(
        String::from_str("Create flow run call does not return JSON. Got ").concat(detail),
    )
}

/// Interprets the create-run response text: the `name` field is the created
/// run's name; a response that is not JSON carries the parser's words, and one
/// without a name is the missing-field failure — never a success.
pub fn extract_run_name(response_text: &str) -> (r: Result<String, Error>)
    ensures
        !json_ok(response_text@) ==> (r matches Err(e) && e matches Error::PrefectApiError(m) && m@
            == "Create flow run call does not return JSON. Got "@ + json_err_of(response_text@)),
        json_ok(response_text@) ==> (match run_name_of(response_text@) {
            Some(name) => r matches Ok(v) && v@ == name,
            None => r matches Err(e) && (e matches Error::PrefectApiError(m) && m@
                == "Unable to get name from the returned json"@),
        }),
        r matches Err(e) ==> e is PrefectApiError,
{
    match read_run_name(response_text) {
        Ok(name) => run_name_result(name),
        Err(e) => Err(bad_create_run_response_error(e.as_str())),
    }
}

/// How one outbound call authenticates, resolved once at start-up and shared
/// by every loop: the four OAuth exchange parameters when managed auth is
/// requested, else the static key when one is present, else anonymous.
#[derive(Debug)]
pub enum TokenDirective {
    UseMsal((String, String, String, String)),
    StaticKey(String),
    Anonymous,
}

/// Decides how outbound calls authenticate. Managed auth requested with no
/// installed exchange parameters is a configuration error; a missing static
/// key is not: anonymous calls are attempted and the remote side rejects them
/// if unauthorized.
pub fn get_token_directive(settings: &Settings, api_key: Option<String>) -> (r: Result<
    TokenDirective,
    Error,
>)
    ensures
        settings.prefect_use_msal_auth == Some(true) ==> (match settings.azure_msal_credentials {
            Some(c) => r == Ok::<TokenDirective, Error>(TokenDirective::UseMsal(c)),
            None => r matches Err(e) && e matches Error::ConfigurationError(m) && m@
                == "Unable to source credentials from the shared settings"@,
        }),
        settings.prefect_use_msal_auth != Some(true) ==> (match api_key {
            Some(k) => r == Ok::<TokenDirective, Error>(TokenDirective::StaticKey(k)),
            None => r == Ok::<TokenDirective, Error>(TokenDirective::Anonymous),
        }),
{
    let use_msal = match settings.prefect_use_msal_auth {
        Some(flag) => flag,
        None => false,
    };
    if use_msal {
        match settings.get_azure_credentials() {
            Some(c) => Ok(TokenDirective::UseMsal((c.0.clone(), c.1.clone(), c.2.clone(), c.3.clone()))),
            None => Err(
                Error::ConfigurationError(
                    String::from_str("Unable to source credentials from the shared settings"),
                ),
            ),
        }
    } else {
        match api_key {
            Some(k) => Ok(TokenDirective::StaticKey(k)),
            None => Ok(TokenDirective::Anonymous),
        }
    }
}

} // verus!
