//! The arguments of a request to a cloud, and the derivation of the headers
//! that authenticate it.

use crate::canonical::{
    authorization_header, authorization_text, canonical_headers_text, canonical_request,
    canonical_request_text, credential_scope, credential_scope_text, header_views,
    signed_header_names, signed_names_text, string_to_sign, string_to_sign_text, SignedHeader,
    SignedHeaderView,
};
use crate::errors::SigningError;
use crate::header_names::{
    lemma_signed_names_match_block, names_in_block, names_in_list, readable_header,
    written_names,
};
use crate::headers::{AWSHeaders, AWSHeadersView, CONTENT_LENGTH, CONTENT_TYPE, HOST, X_AMZ_DATE};
use crate::payload::{
    billing_template, billing_template_text, rewrite_json, rewritten_json, PayloadError,
};
use crate::signers::{
    aws_get_signature_key, aws_signature, sha256_hex, sha256_hex_text, signature_text,
    signing_key,
};
use crate::text::{
    ascii_lower_text, byte_length, decimal_text, lemma_decimal_text_is_digits, push_decimal,
};
use crate::timestamp::{amz_date_text, date_stamp_text, lemma_renderings_are_plain, Timestamp};
use vstd::prelude::*;
use vstd::string::StringExecFns;
use vstd::utf8::encode_utf8;

verus! {

/// The one service that requests are signed for.
pub const SUPPORTED_SERVICE: &'static str = "ce";

/// The method of a billing query.
pub const BILLING_METHOD: &'static str = "POST";

/// The region that billing queries go to.
pub const BILLING_REGION: &'static str = "us-east-1";

/// The host that billing queries go to.
pub const BILLING_HOST: &'static str = "ce.us-east-1.amazonaws.com";

/// The path of a billing query.
pub const BILLING_URI: &'static str = "/";

/// The media type of the body of every request.
pub const JSON_CONTENT_TYPE: &'static str = "application/x-amz-json-1.1";

/// The media types that are accepted in answer.
pub const ACCEPT_ANY: &'static str = "*/*";

/// The operation that every request asks for.
pub const COST_AND_USAGE_TARGET: &'static str = "AWSInsightsIndexService.GetCostAndUsage";

/// The arguments that a request to some cloud needs.
pub trait CloudArgs {

}

/// The arguments of a request to AWS.
#[derive(Debug, PartialEq, Eq)]
pub struct AWSArgs {
    pub access_key: String,
    pub secret_access_key: String,
    pub service: String,
    pub method: String,
    pub region: String,
    pub host: String,
    pub canonical_uri: String,
    pub payload: String,
}

/// What an `AWSArgs` stands for.
pub struct AWSArgsView {
    pub access_key: Seq<char>,
    pub secret_access_key: Seq<char>,
    pub service: Seq<char>,
    pub method: Seq<char>,
    pub region: Seq<char>,
    pub host: Seq<char>,
    pub canonical_uri: Seq<char>,
    pub payload: Seq<char>,
}

impl View for AWSArgs {
    type V = AWSArgsView;

    open spec fn view(&self) -> AWSArgsView {
        AWSArgsView {
            access_key: self.access_key@,
            secret_access_key: self.secret_access_key@,
            service: self.service@,
            method: self.method@,
            region: self.region@,
            host: self.host@,
            canonical_uri: self.canonical_uri@,
            payload: self.payload@,
        }
    }
}

impl CloudArgs for AWSArgs {

}

/// An authentication configuration for some cloud.
pub trait Config {

}

/// The credentials that AWS knows an account by.
#[derive(Debug, PartialEq, Eq)]
pub struct AWSConfig {
    access_key: String,
    secret_access_key: String,
}

impl Config for AWSConfig {

}

/// What an `AWSConfig` stands for.
pub struct AWSConfigView {
    pub access_key: Seq<char>,
    pub secret_access_key: Seq<char>,
}

impl View for AWSConfig {
    type V = AWSConfigView;

    closed spec fn view(&self) -> AWSConfigView {
        AWSConfigView {
            access_key: self.access_key@,
            secret_access_key: self.secret_access_key@,
        }
    }
}

impl AWSConfig {
    /// The configuration with this identifier and this secret.
    pub fn new(access_key: String, secret_access_key: String) -> (config: AWSConfig)
        ensures
            config@.access_key == access_key@,
            config@.secret_access_key == secret_access_key@,
    {
        AWSConfig { access_key, secret_access_key }
    }

    /// The identifier of the key.
    pub fn access_key(&self) -> (key: &str)
        ensures
            key@ == self@.access_key,
    {
        self.access_key.as_str()
    }

    /// The secret of the key.
    pub fn secret_access_key(&self) -> (secret: &str)
        ensures
            secret@ == self@.secret_access_key,
    {
        self.secret_access_key.as_str()
    }
}

/// The arguments of a billing query with the body `payload`, made with the
/// credentials `access_key` and `secret_access_key`.
pub open spec fn billing_args(
    access_key: Seq<char>,
    secret_access_key: Seq<char>,
    payload: Seq<char>,
) -> AWSArgsView {
    AWSArgsView {
        access_key,
        secret_access_key,
        service: SUPPORTED_SERVICE@,
        method: BILLING_METHOD@,
        region: BILLING_REGION@,
        host: BILLING_HOST@,
        canonical_uri: BILLING_URI@,
        payload,
    }
}

impl AWSArgs {
    /// The arguments of a billing query with the body `payload`.
    pub fn billing_with_payload(config: &AWSConfig, payload: String) -> (args: AWSArgs)
        ensures
            args@ == billing_args(
                config@.access_key,
                config@.secret_access_key,
                payload@,
            ),
    {
        AWSArgs {
            access_key: String::from_str(config.access_key()),
            secret_access_key: String::from_str(config.secret_access_key()),
            service: String::from_str(SUPPORTED_SERVICE),
            method: String::from_str(BILLING_METHOD),
            region: String::from_str(BILLING_REGION),
            host: String::from_str(BILLING_HOST),
            canonical_uri: String::from_str(BILLING_URI),
            payload,
        }
    }

    /// The arguments of the billing query for the period from `start` to
    /// `end`. The body is the query template with the period filled in, read
    /// and written again as JSON; where that fails there are no arguments.
    pub fn billing_for_period(start: &str, end: &str, config: &AWSConfig) -> (args: Result<
        AWSArgs,
        PayloadError,
    >)
        ensures
            args matches Ok(a) ==> rewritten_json(billing_template_text(start@, end@)) matches Ok(
                payload,
            ) && a@ == billing_args(
                config@.access_key,
                config@.secret_access_key,
                payload,
            ),
            args matches Err(e) ==> rewritten_json(billing_template_text(start@, end@)) == Err::<
                Seq<char>,
                PayloadError,
            >(e),
    {
        let template = billing_template(start, end);
        match rewrite_json(template.as_str()) {
            Ok(payload) => Ok(AWSArgs::billing_with_payload(config, payload)),
            Err(e) => Err(e),
        }
    }
}

/// The headers that are signed, in the order in which they are signed, with
/// the values they have for a body of `content_length` bytes sent to `host`
/// at the instant rendered as `amz_date`.
pub open spec fn request_headers(content_length: nat, host: Seq<char>, amz_date: Seq<char>) -> Seq<
    SignedHeaderView,
> {
    seq![
        SignedHeaderView { name: CONTENT_LENGTH@, value: decimal_text(content_length) },
        SignedHeaderView { name: CONTENT_TYPE@, value: JSON_CONTENT_TYPE@ },
        SignedHeaderView { name: HOST@, value: host },
        SignedHeaderView { name: X_AMZ_DATE@, value: amz_date },
    ]
}

/// The canonical request of `args` at `now`.
pub open spec fn request_text(args: AWSArgsView, now: Timestamp) -> Seq<char> {
    canonical_request_text(
        args.method,
        args.canonical_uri,
        Seq::empty(),
        request_headers(encode_utf8(args.payload).len(), args.host, amz_date_text(now)),
        sha256_hex_text(args.payload),
    )
}

/// The credential scope of `args` at `now`.
pub open spec fn request_scope(args: AWSArgsView, now: Timestamp) -> Seq<char> {
    credential_scope_text(date_stamp_text(now), args.region, args.service)
}

/// The signature of `args` at `now`: the text to sign, signed with the key
/// that is derived from the secret for the day of `now`.
pub open spec fn request_signature(args: AWSArgsView, now: Timestamp) -> Seq<char> {
    signature_text(
        signing_key(args.secret_access_key, date_stamp_text(now), args.region, args.service),
        string_to_sign_text(
            amz_date_text(now),
            request_scope(args, now),
            sha256_hex_text(request_text(args, now)),
        ),
    )
}

/// The header set of `args` at `now`.
pub open spec fn derived_headers(args: AWSArgsView, now: Timestamp) -> AWSHeadersView {
    let content_length = encode_utf8(args.payload).len();
    let amz_date = amz_date_text(now);
    AWSHeadersView {
        accept: ACCEPT_ANY@,
        authorization: authorization_text(
            args.access_key,
            request_scope(args, now),
            signed_names_text(request_headers(content_length, args.host, amz_date)),
            request_signature(args, now),
        ),
        content_length,
        content_type: JSON_CONTENT_TYPE@,
        host: args.host,
        amz_date,
        amz_target: COST_AND_USAGE_TARGET@,
    }
}

/// What signing `args` at `now` gives: the header set, or the reason why
/// there is none. A service that is not served is refused first, then an
/// instant that is none.
pub open spec fn signing_outcome(args: AWSArgsView, now: Timestamp) -> Result<
    AWSHeadersView,
    SigningError,
> {
    if args.service != SUPPORTED_SERVICE@ {
        Err(SigningError::UnsupportedService)
    } else if !now.is_valid() {
        Err(SigningError::Clock)
    } else {
        Ok(derived_headers(args, now))
    }
}

/// Derives the headers of a request to some cloud from its arguments.
pub trait HeaderDeriver {
    type ArgType: CloudArgs;

    /// What `get_headers` returns for `args` at `now`.
    spec fn outcome(&self, args: &Self::ArgType, now: Timestamp) -> Result<
        AWSHeadersView,
        SigningError,
    >;

    /// The headers of `args` at the instant `now`. The result depends on
    /// `self`, `args` and `now` alone.
    fn get_headers(&self, args: &Self::ArgType, now: Timestamp) -> (headers: Result<
        AWSHeaders,
        SigningError,
    >)
        ensures
            headers matches Ok(h) ==> self.outcome(args, now) == Ok::<
                AWSHeadersView,
                SigningError,
            >(h@),
            headers matches Err(e) ==> self.outcome(args, now) == Err::<
                AWSHeadersView,
                SigningError,
            >(e),
    ;
}

/// Derives the headers of requests to AWS.
pub struct AWSArgsParser;

impl AWSArgsParser {
    /// The deriver for the billing service.
    pub fn new() -> (parser: AWSArgsParser)
        ensures
            parser == AWSArgsParser,
    {
        AWSArgsParser {  }
    }
}

/// Makes the list of the headers that are signed, with their values.
pub fn signed_headers(content_length: usize, host: &str, amz_date: &str) -> (headers: Vec<
    SignedHeader,
>)
    ensures
        header_views(headers@) == request_headers(content_length as nat, host@, amz_date@),
{
    let mut length = String::new();
    push_decimal(&mut length, content_length);
    let mut headers: Vec<SignedHeader> = Vec::new();
    headers.push(SignedHeader { name: String::from_str(CONTENT_LENGTH), value: length });
    headers.push(
        SignedHeader {
            name: String::from_str(CONTENT_TYPE),
            value: String::from_str(JSON_CONTENT_TYPE),
        },
    );
    headers.push(SignedHeader { name: String::from_str(HOST), value: String::from_str(host) });
    headers.push(
        SignedHeader { name: String::from_str(X_AMZ_DATE), value: String::from_str(amz_date) },
    );
    assert(header_views(headers@) =~= request_headers(content_length as nat, host@, amz_date@));
    headers
}

impl HeaderDeriver for AWSArgsParser {
    type ArgType = AWSArgs;

    open spec fn outcome(&self, args: &AWSArgs, now: Timestamp) -> Result<
        AWSHeadersView,
        SigningError,
    > {
        signing_outcome(args@, now)
    }

    fn get_headers(&self, args: &AWSArgs, now: Timestamp) -> (headers: Result<
        AWSHeaders,
        SigningError,
    >) {
        let supported = String::from_str(SUPPORTED_SERVICE);
        if !(args.service == supported) {
            return Err(SigningError::UnsupportedService);
        }
        let amz_date = now.amz_date()?;
        let date_stamp = now.date_stamp()?;
        let content_length: usize = byte_length(args.payload.as_str());
        let headers = signed_headers(content_length, args.host.as_str(), amz_date.as_str());
        let scope = credential_scope(
            date_stamp.as_str(),
            args.region.as_str(),
            args.service.as_str(),
        );
        let request = canonical_request(
            args.method.as_str(),
            args.canonical_uri.as_str(),
            "",
            &headers,
            args.payload.as_str(),
        );
        let request_hash = sha256_hex(request.as_str());
        let to_sign = string_to_sign(amz_date.as_str(), scope.as_str(), request_hash.as_str());
        let key = aws_get_signature_key(
            args.secret_access_key.as_str(),
            date_stamp.as_str(),
            args.region.as_str(),
            args.service.as_str(),
        )?;
        let signature = aws_signature(key.as_slice(), to_sign.as_str())?;
        let signed_names = signed_header_names(&headers);
        let authorization = authorization_header(
            args.access_key.as_str(),
            scope.as_str(),
            signed_names.as_str(),
            signature.as_str(),
        );
        proof {
            reveal_strlit("");
            assert(""@ =~= Seq::<char>::empty());
        }
        Ok(
            AWSHeaders {
                accept: String::from_str(ACCEPT_ANY),
                authorization,
                content_length,
                content_type: String::from_str(JSON_CONTENT_TYPE),
                host: args.host.clone(),
                amz_date,
                amz_target: String::from_str(COST_AND_USAGE_TARGET),
            },
        )
    }
}

/// The authorization header lists the headers of the canonical block: the
/// names read out of the list of signed names that it carries are the names
/// read out of the block of the canonical request, in the same order, and
/// they are the four names that are signed. This holds where the host holds
/// no line feed.
pub proof fn lemma_authorization_lists_the_signed_headers(args: AWSArgsView, now: Timestamp)
    requires
        !args.host.contains('\n'),
    ensures
        ({
            let headers = request_headers(
                encode_utf8(args.payload).len(),
                args.host,
                amz_date_text(now),
            );
            &&& derived_headers(args, now).authorization == authorization_text(
                args.access_key,
                request_scope(args, now),
                signed_names_text(headers),
                request_signature(args, now),
            )
            &&& request_text(args, now) == canonical_request_text(
                args.method,
                args.canonical_uri,
                Seq::empty(),
                headers,
                sha256_hex_text(args.payload),
            )
            &&& names_in_list(signed_names_text(headers)) == names_in_block(
                canonical_headers_text(headers),
            )
            &&& names_in_list(signed_names_text(headers)) == seq![
                CONTENT_LENGTH@,
                CONTENT_TYPE@,
                HOST@,
                X_AMZ_DATE@,
            ]
        }),
{
    let length = encode_utf8(args.payload).len();
    let amz_date = amz_date_text(now);
    let headers = request_headers(length, args.host, amz_date);
    reveal_strlit("content-length");
    reveal_strlit("content-type");
    reveal_strlit("host");
    reveal_strlit("x-amz-date");
    reveal_strlit("application/x-amz-json-1.1");
    lemma_decimal_text_is_digits(length);
    lemma_renderings_are_plain(now);
    assert(!decimal_text(length).contains('\n'));
    assert(!amz_date.contains('\n'));
    assert(readable_header(headers[0]));
    assert(readable_header(headers[1]));
    assert(readable_header(headers[2]));
    assert(readable_header(headers[3]));
    lemma_signed_names_match_block(headers);
    assert(ascii_lower_text(CONTENT_LENGTH@) =~= CONTENT_LENGTH@);
    assert(ascii_lower_text(CONTENT_TYPE@) =~= CONTENT_TYPE@);
    assert(ascii_lower_text(HOST@) =~= HOST@);
    assert(ascii_lower_text(X_AMZ_DATE@) =~= X_AMZ_DATE@);
    assert(written_names(headers) =~= seq![
        CONTENT_LENGTH@,
        CONTENT_TYPE@,
        HOST@,
        X_AMZ_DATE@,
    ]);
}

/// Signing depends on what the arguments hold and on the instant, and on
/// nothing else: arguments that hold the same texts have the same outcome
/// at the same instant.
pub proof fn lemma_signing_is_deterministic(first: AWSArgs, second: AWSArgs, now: Timestamp)
    requires
        first@ == second@,
    ensures
        AWSArgsParser.outcome(&first, now) == AWSArgsParser.outcome(&second, now),
{
}

} // verus!
