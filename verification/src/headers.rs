//! The header set that a signed request carries.

use vstd::prelude::*;

verus! {

/// The name of the header that carries the instant of the request, in the
/// rendering `YYYYMMDDTHHMMSSZ`.
pub const X_AMZ_DATE: &'static str = "x-amz-date";

/// The name of the header that carries the operation asked for.
pub const X_AMZ_TARGET: &'static str = "x-amz-target";

/// The name of the header that carries the length of the body in bytes.
pub const CONTENT_LENGTH: &'static str = "content-length";

/// The name of the header that carries the media type of the body.
pub const CONTENT_TYPE: &'static str = "content-type";

/// The name of the header that carries the host asked.
pub const HOST: &'static str = "host";

/// The values of the headers of one signed request. It owns its values.
#[derive(Debug, PartialEq, Eq)]
pub struct AWSHeaders {
    pub accept: String,
    pub authorization: String,
    pub content_length: usize,
    pub content_type: String,
    pub host: String,
    pub amz_date: String,
    pub amz_target: String,
}

/// What an `AWSHeaders` stands for.
pub struct AWSHeadersView {
    pub accept: Seq<char>,
    pub authorization: Seq<char>,
    pub content_length: nat,
    pub content_type: Seq<char>,
    pub host: Seq<char>,
    pub amz_date: Seq<char>,
    pub amz_target: Seq<char>,
}

impl View for AWSHeaders {
    type V = AWSHeadersView;

    open spec fn view(&self) -> AWSHeadersView {
        AWSHeadersView {
            accept: self.accept@,
            authorization: self.authorization@,
            content_length: self.content_length as nat,
            content_type: self.content_type@,
            host: self.host@,
            amz_date: self.amz_date@,
            amz_target: self.amz_target@,
        }
    }
}

} // verus!
