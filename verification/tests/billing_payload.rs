use cloubil::derivers::{AWSArgs, AWSArgsParser, AWSConfig, HeaderDeriver};
use cloubil::payload::{billing_template, rewrite_json, PayloadError};
use cloubil::timestamp::Timestamp;

fn config() -> AWSConfig {
    AWSConfig::new("AKIDEXAMPLE".to_string(), "secret".to_string())
}

#[test]
fn template_holds_the_period() {
    assert_eq!(
        billing_template("2023-01-01", "2023-02-01"),
        "{\"TimePeriod\":{\"Start\":\"2023-01-01\",\"End\":\"2023-02-01\"},\"Granularity\":\"MONTHLY\",\"Metrics\":[\"AmortizedCost\"]}"
    );
    assert_eq!(
        billing_template("", ""),
        "{\"TimePeriod\":{\"Start\":\"\",\"End\":\"\"},\"Granularity\":\"MONTHLY\",\"Metrics\":[\"AmortizedCost\"]}"
    );
}

#[test]
fn rewriting_drops_the_space_between_tokens() {
    assert_eq!(
        rewrite_json(" { \"a\" : [ 1 , 2 ] ,\n \"b\" : null } "),
        Ok("{\"a\":[1,2],\"b\":null}".to_string())
    );
    assert_eq!(rewrite_json("\"x\""), Ok("\"x\"".to_string()));
    assert_eq!(rewrite_json(" 12 "), Ok("12".to_string()));
}

#[test]
fn rewriting_orders_the_members_by_key() {
    assert_eq!(
        rewrite_json("{\"b\":1,\"a\":2}"),
        Ok("{\"a\":2,\"b\":1}".to_string())
    );
}

#[test]
fn rewriting_refuses_what_is_no_json() {
    assert_eq!(rewrite_json(""), Err(PayloadError::Unreadable));
    assert_eq!(rewrite_json("{"), Err(PayloadError::Unreadable));
    assert_eq!(rewrite_json("{\"a\":}"), Err(PayloadError::Unreadable));
    assert_eq!(rewrite_json("{} {}"), Err(PayloadError::Unreadable));
}

#[test]
fn billing_arguments_for_a_period() {
    let args = AWSArgs::billing_for_period("2023-01-01", "2023-02-01", &config()).unwrap();
    assert_eq!(
        args,
        AWSArgs {
            access_key: "AKIDEXAMPLE".to_string(),
            secret_access_key: "secret".to_string(),
            service: "ce".to_string(),
            method: "POST".to_string(),
            region: "us-east-1".to_string(),
            host: "ce.us-east-1.amazonaws.com".to_string(),
            canonical_uri: "/".to_string(),
            payload: "{\"Granularity\":\"MONTHLY\",\"Metrics\":[\"AmortizedCost\"],\"TimePeriod\":{\"End\":\"2023-02-01\",\"Start\":\"2023-01-01\"}}".to_string(),
        }
    );
}

#[test]
fn billing_arguments_with_a_given_payload() {
    let args = AWSArgs::billing_with_payload(&config(), "{}".to_string());
    assert_eq!(args.payload, "{}");
    assert_eq!(args.access_key, "AKIDEXAMPLE");
    assert_eq!(args.secret_access_key, "secret");
    assert_eq!(args.service, "ce");
    assert_eq!(args.method, "POST");
    assert_eq!(args.region, "us-east-1");
    assert_eq!(args.host, "ce.us-east-1.amazonaws.com");
    assert_eq!(args.canonical_uri, "/");
}

#[test]
fn billing_arguments_refuse_a_period_that_breaks_the_document() {
    assert_eq!(
        AWSArgs::billing_for_period("2023-01-01\"", "2023-02-01", &config()),
        Err(PayloadError::Unreadable)
    );
    assert_eq!(
        AWSArgs::billing_for_period("2023-01-01", "a\\", &config()),
        Err(PayloadError::Unreadable)
    );
    assert_eq!(
        AWSArgs::billing_for_period("line\nfeed", "2023-02-01", &config()),
        Err(PayloadError::Unreadable)
    );
}

#[test]
fn billing_arguments_are_signed_for_the_supported_service() {
    let args = AWSArgs::billing_for_period("2023-01-01", "2023-02-01", &config()).unwrap();
    let now = Timestamp::new(2023, 1, 1, 0, 0, 0).unwrap();
    let headers = AWSArgsParser::new().get_headers(&args, now).unwrap();
    assert_eq!(headers.content_length, 108);
    assert_eq!(
        headers.authorization,
        "AWS4-HMAC-SHA256 Credential=AKIDEXAMPLE/20230101/us-east-1/ce/aws4_request, SignedHeaders=content-length;content-type;host;x-amz-date, Signature=ff1acdb53a119474e1d17792dd44f36f70f48ae5d41e27388902e44f88c00f69"
    );
}

#[test]
fn config_hands_back_what_it_was_made_with() {
    let config = AWSConfig::new("id".to_string(), "key".to_string());
    assert_eq!(config.access_key(), "id");
    assert_eq!(config.secret_access_key(), "key");
    assert_eq!(config, AWSConfig::new("id".to_string(), "key".to_string()));
}
