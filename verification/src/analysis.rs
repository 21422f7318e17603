//! One analysis: a request, its reply, and the results decoded from it.

use vstd::prelude::*;
use vstd::string::*;

use crate::ollama::{
    generate_endpoint, generate_url, parsed_response, parsed_results, OllamaRequest,
    OllamaResponse, RequestView,
};
use crate::oneiromancer::{OneiromancerConfig, OneiromancerError, OneiromancerResults};

verus! {

/// Whether `outcome` is what an analysis gives when posting its request ended
/// with `posted`. A failed post is a failed query, never anything else. A body
/// that is not a reply is a parse failure, and so is an answer that does not
/// spell out results, as the empty answer never does. Otherwise the outcome is
/// the results that the answer spells out.
pub open spec fn is_analysis_of(
    posted: Result<String, ureq::Error>,
    outcome: Result<OneiromancerResults, OneiromancerError>,
) -> bool {
    match posted {
        Err(cause) => outcome == Err::<OneiromancerResults, OneiromancerError>(
            OneiromancerError::OllamaQueryFailed(cause),
        ),
        Ok(body) => match parsed_response(body@) {
            None => outcome matches Err(e) && e is ResponseParseFailed,
            Some(response) => if response.len() == 0 {
                outcome matches Err(e) && e is ResponseParseFailed
            } else {
                match parsed_results(response) {
                    None => outcome matches Err(e) && e is ResponseParseFailed,
                    Some(results) => outcome matches Ok(decoded) && decoded@ == results,
                }
            },
        },
    }
}

/// The request that an analysis of `pseudo_code` with the model `model` sends.
pub open spec fn analysis_request(model: Seq<char>, pseudo_code: Seq<char>) -> RequestView {
    RequestView { model, prompt: pseudo_code, stream: false, format: "json"@ }
}

/// Decodes the results of an analysis from what posting its request gave.
pub fn analyze_reply(posted: Result<String, ureq::Error>) -> (outcome: Result<
    OneiromancerResults,
    OneiromancerError,
>)
    ensures
        is_analysis_of(posted, outcome),
{
    match OllamaResponse::receive(posted) {
        Ok(reply) => reply.parse(),
        Err(e) => Err(e),
    }
}

/// Submits `pseudo_code` for analysis as `config` says and returns the
/// results. `post` carries the request to the address it is given and hands
/// back the body of the reply, or the reason why there is none. It is called
/// once, and nothing is retried. All that is asked of `post` is that it can
/// be called with the address and the request of this analysis.
pub fn analyze_code<'a, F>(pseudo_code: &'a str, config: &'a OneiromancerConfig, post: F) -> (outcome:
    Result<OneiromancerResults, OneiromancerError>)
    where F: FnOnce(String, OllamaRequest<'a>) -> Result<String, ureq::Error>
    requires
        forall|url: String, request: OllamaRequest<'a>|
            url@ == generate_endpoint(config@.baseurl) && request@ == analysis_request(
                config@.model,
                pseudo_code@,
            ) ==> post.requires((url, request)),
    ensures
        exists|url: String, request: OllamaRequest<'a>, posted: Result<String, ureq::Error>|
            {
                &&& url@ == generate_endpoint(config@.baseurl)
                &&& request@ == analysis_request(config@.model, pseudo_code@)
                &&& post.ensures((url, request), posted)
                &&& is_analysis_of(posted, outcome)
            },
{
    let request = OllamaRequest::new(config.model(), pseudo_code);
    let url = generate_url(config.baseurl());
    let ghost sent_url = url;
    let ghost sent_request = request;
    let posted = post(url, request);
    let ghost got = posted;
    let outcome = analyze_reply(posted);
    assert(post.ensures((sent_url, sent_request), got));
    outcome
}

} // verus!
