use vstd::prelude::*;

use crate::encoding::{url_encode, url_encoded};
use crate::error::RestApiError;
use crate::rest_api::{pairs_view, request_result_view, ApiRequest, HttpMethod, RestApi};
use crate::text::join2;

verus! {

/// A file, named by its title without the `File:` prefix.
#[derive(Clone, Debug)]
pub struct File {
    title: String,
}

impl View for File {
    type V = Seq<char>;

    closed spec fn view(&self) -> Seq<char> {
        self.title@
    }
}

impl File {
    /// A file with the given title, without the `File:` prefix.
    pub fn new(title: &str) -> (r: File)
        ensures
            r@ == title@,
    {
        File { title: String::from_str(title) }
    }

    /// The title.
    pub fn title(&self) -> (r: &str)
        ensures
            r@ == self@,
    {
        self.title.as_str()
    }

    /// The request for the file information.
    pub fn get_request(&self, api: &RestApi) -> (r: Result<ApiRequest, RestApiError>)
        ensures
            request_result_view(r) == api@.request_outcome(
                "/file/"@ + url_encoded(self@),
                Seq::empty(),
                HttpMethod::Get,
            ),
    {
        let params: Vec<(String, String)> = Vec::new();
        assert(pairs_view(params@) =~= Seq::empty());
        let path = join2("/file/", url_encode(self.title.as_str()).as_str());
        api.build_versioned_request(path.as_str(), params, HttpMethod::Get)
    }
}

} // verus!
