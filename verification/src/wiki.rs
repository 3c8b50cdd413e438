//! The request to the external documentation ("wiki") service: target URL,
//! bearer authorization, and the JSON body carrying the repository id, the
//! clone path and the rendered file tree.  Sending is the runtime's job.

use vstd::prelude::*;

use crate::errors::AppError;
use crate::text::{dec_str, json_escape, json_escaped, u64_to_string};

verus! {

/// Where the documentation service lives and the token it expects.
#[derive(Clone, Debug)]
pub struct WikiConfig {
    pub service_url: String,
    pub api_key: String,
}

/// A JSON string literal holding `v`.
pub open spec fn json_string(v: Seq<char>) -> Seq<char> {
    seq!['"'] + json_escaped(v) + seq!['"']
}

/// The JSON body of a documentation-generation request.
pub open spec fn docs_gen_body_text(
    repo_id: Seq<char>,
    clone_path: Seq<char>,
    tree: Seq<char>,
) -> Seq<char> {
    "{\"repo_id\":"@ + json_string(repo_id) + ",\"repo_path\":"@ + json_string(clone_path)
        + ",\"file_tree\":"@ + json_string(tree) + "}"@
}

/// Appends `v` as a JSON string literal.
fn push_json_string(out: String, v: &str) -> (r: String)
    ensures
        r@ == out@ + json_string(v@),
{
    let quoted = out.concat("\"").concat(json_escape(v).as_str()).concat("\"");
    proof {
        reveal_strlit("\"");
        assert("\""@ =~= seq!['"']);
        assert(quoted@ =~= out@ + json_string(v@));
    }
    quoted
}

/// Builds the JSON body of a documentation-generation request.
pub fn docs_gen_body(repo_id: &str, clone_path: &str, tree: &str) -> (r: String)
    ensures
        r@ == docs_gen_body_text(repo_id@, clone_path@, tree@),
{
    let mut body = String::from_str("{\"repo_id\":");
    body = push_json_string(body, repo_id);
    body = body.concat(",\"repo_path\":");
    body = push_json_string(body, clone_path);
    body = body.concat(",\"file_tree\":");
    body = push_json_string(body, tree);
    body = body.concat("}");
    proof {
        assert(body@ =~= docs_gen_body_text(repo_id@, clone_path@, tree@));
    }
    body
}

/// The endpoint the documentation request is posted to.
pub open spec fn docs_gen_url_text(service_url: Seq<char>) -> Seq<char> {
    service_url + "/docs-gen"@
}

/// Builds the documentation-service endpoint for a configuration.
pub fn docs_gen_url(config: &WikiConfig) -> (r: String)
    ensures
        r@ == docs_gen_url_text(config.service_url@),
{
    let r = config.service_url.clone().concat("/docs-gen");
    proof {
        assert(r@ =~= docs_gen_url_text(config.service_url@));
    }
    r
}

/// The authorization header value for a configuration.
pub open spec fn bearer_text(api_key: Seq<char>) -> Seq<char> {
    "Bearer "@ + api_key
}

/// Builds the bearer authorization header value for a configuration.
pub fn bearer_header(config: &WikiConfig) -> (r: String)
    ensures
        r@ == bearer_text(config.api_key@),
{
    let r = String::from_str("Bearer ").concat(config.api_key.as_str());
    proof {
        assert(r@ =~= bearer_text(config.api_key@));
    }
    r
}

/// Whether an HTTP status code reports success.
pub open spec fn is_success_status(status: u16) -> bool {
    200 <= status < 300
}

/// The report for a documentation-service response outside the success
/// range: the status code and the response body.
pub open spec fn wiki_failure_text(status: u16, body: Seq<char>) -> Seq<char> {
    "HTTP "@ + dec_str(status as nat) + ": "@ + body
}

/// Reads the documentation service's response: any status in the success
/// range is success; anything else fails the request with the status and
/// the response body's text.
pub fn wiki_response_outcome(status: u16, body: &str) -> (r: Result<(), AppError>)
    ensures
        is_success_status(status) ==> r is Ok,
        !is_success_status(status) ==> (r matches Err(e) && e matches AppError::WikiService(m)
            && m@ == wiki_failure_text(status, body@)),
{
    if 200 <= status && status < 300 {
        Ok(())
    } else {
        let msg = String::from_str("HTTP ").concat(u64_to_string(status as u64).as_str()).concat(
            ": ",
        ).concat(body);
        proof {
            assert(msg@ =~= wiki_failure_text(status, body@));
        }
        Err(AppError::WikiService(msg))
    }
}

} // verus!
