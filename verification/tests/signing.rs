//! Golden-vector tests for the four provider signers, with the timestamp
//! injected so every value is deterministic.

use translator::aliyun;
use translator::baidu;
use translator::common::{Config, Context, Credential, TransError, TransReq};
use translator::huoshan;
use translator::tencent;

const TS: u64 = 1700000000;

fn context_all(src: &str, source: &str, target: &str) -> Context {
    let cred = |k: &str, s: &str| Credential::create(k.to_string(), s.to_string());
    Context::create(
        TransReq::create(src, source, target),
        reqwest::Client::new(),
        Config::create(
            Some(cred("key1", "secret1")),
            Some(cred("key1", "secret1")),
            Some(cred("key1", "secret1")),
            Some(cred("key1", "secret1")),
        ),
    )
}

fn context_empty() -> Context {
    Context::create(
        TransReq::create("hello", "auto", "zh"),
        reqwest::Client::new(),
        Config::create(None, None, None, None),
    )
}

#[test]
fn baidu_reference_vector() {
    assert_eq!(
        baidu::sign("123abc", "hello", "9527", "secret1"),
        "b03e60224402e150e6fc8e404c83691d"
    );
}

#[test]
fn baidu_query_golden() {
    let ctx = context_all("hello", "auto", "zh");
    let q = baidu::prepare(&ctx).unwrap();
    assert_eq!(q.len(), 6);
    assert_eq!(q[0], ("q".to_string(), "hello".to_string()));
    assert_eq!(q[1], ("from".to_string(), "auto".to_string()));
    assert_eq!(q[2], ("to".to_string(), "zh".to_string()));
    assert_eq!(q[3], ("salt".to_string(), "9527".to_string()));
    assert_eq!(q[4], ("appid".to_string(), "key1".to_string()));
    assert_eq!(
        q[5],
        ("sign".to_string(), "87b9d684a90caef7084464caeae445cb".to_string())
    );
}

#[test]
fn baidu_query_carries_explicit_source_language() {
    let ctx = context_all("hello", "en", "zh");
    let q = baidu::prepare(&ctx).unwrap();
    assert_eq!(q[1], ("from".to_string(), "en".to_string()));
    // The source language is not part of the signed material.
    assert_eq!(
        q[5],
        ("sign".to_string(), "87b9d684a90caef7084464caeae445cb".to_string())
    );
}

#[test]
fn baidu_disabled_is_config_error() {
    let ctx = context_empty();
    assert_eq!(baidu::prepare(&ctx).unwrap_err(), TransError::BaiduConfig);
}

#[test]
fn aliyun_signed_golden() {
    let ctx = context_all("hello", "auto", "zh");
    let s = aliyun::prepare(&ctx, TS).unwrap();
    assert_eq!(
        s.body,
        "{\"FormatType\":\"text\",\"SourceLanguage\":\"auto\",\"TargetLanguage\":\"zh\",\"SourceText\":\"hello\",\"Scene\":\"general\"}"
    );
    assert_eq!(s.content_md5, "eaCOL3WO4xgZcd7ubyleSQ==");
    assert_eq!(s.nonce, "1700000000");
    assert_eq!(s.date, "Tue, 14 Nov 2023 22:13:20 +0000");
    assert_eq!(s.authorization, "acs key1:TTCzXGKDgg2OHvY7IHq05KWzR/E=");
    let h = s.headers();
    assert_eq!(h.len(), 8);
    assert_eq!(h[0], ("content-md5".to_string(), s.content_md5.clone()));
    assert_eq!(h[1], ("x-acs-signature-nonce".to_string(), "1700000000".to_string()));
    assert_eq!(h[2], ("x-acs-signature-method".to_string(), "HMAC-SHA1".to_string()));
    assert_eq!(
        h[3],
        ("content-type".to_string(), "application/json; charset=utf-8".to_string())
    );
    assert_eq!(h[4], ("accept".to_string(), "application/json".to_string()));
    assert_eq!(h[5], ("host".to_string(), "mt.cn-hangzhou.aliyuncs.com".to_string()));
    assert_eq!(h[6], ("date".to_string(), s.date.clone()));
    assert_eq!(h[7], ("authorization".to_string(), s.authorization.clone()));
}

#[test]
fn aliyun_date_matches_chrono() {
    let ctx = context_all("hello", "auto", "zh");
    let s = aliyun::prepare(&ctx, TS).unwrap();
    let expect = chrono::DateTime::<chrono::Utc>::from_timestamp(TS as i64, 0)
        .unwrap()
        .to_rfc2822();
    assert_eq!(s.date, expect);
}

#[test]
fn aliyun_signature_layers() {
    let canonical = aliyun::canonical_string("HASH", "DATE", "42");
    assert_eq!(
        canonical,
        "POST\napplication/json\nHASH\napplication/json; charset=utf-8\nDATE\nx-acs-signature-method:HMAC-SHA1\nx-acs-signature-nonce:42\n/api/translate/web/general"
    );
    let auth = aliyun::authorization("k", "s");
    assert_eq!(auth, "acs k:s");
}

#[test]
fn aliyun_disabled_is_config_error() {
    let ctx = context_empty();
    assert_eq!(aliyun::prepare(&ctx, TS).unwrap_err(), TransError::AliYunConfig);
}

#[test]
fn huoshan_signed_golden() {
    let ctx = context_all("hello", "auto", "zh");
    let s = huoshan::prepare(&ctx, TS).unwrap();
    assert_eq!(s.body, "{\"TargetLanguage\":\"zh\",\"TextList\":[\"hello\"]}");
    assert_eq!(s.x_date, "20231114T221320Z");
    assert_eq!(
        s.authorization,
        "HMAC-SHA256 Credential=key1/20231114/cn-north-1/translate/request, SignedHeaders=content-type;host;x-date, Signature=a9561a75d2a274e165138587f56b3768cc9f2139fd8c5fbea0f0ac95432816e7"
    );
    let h = s.headers();
    assert_eq!(h.len(), 4);
    assert_eq!(h[0], ("x-date".to_string(), "20231114T221320Z".to_string()));
    assert_eq!(
        h[1],
        ("content-type".to_string(), "application/json; charset=utf-8".to_string())
    );
    assert_eq!(h[2], ("host".to_string(), "open.volcengineapi.com".to_string()));
    assert_eq!(h[3], ("authorization".to_string(), s.authorization.clone()));
    let q = s.query();
    assert_eq!(q.len(), 2);
    assert_eq!(q[0], ("Action".to_string(), "TranslateText".to_string()));
    assert_eq!(q[1], ("Version".to_string(), "2020-06-01".to_string()));
}

#[test]
fn huoshan_multi_text_body() {
    let mut req = huoshan::HuoShanReq::create("one", "zh");
    req.data.push("two".to_string());
    assert_eq!(req.to_json(), "{\"TargetLanguage\":\"zh\",\"TextList\":[\"one\",\"two\"]}");
}

#[test]
fn huoshan_disabled_is_config_error() {
    let ctx = context_empty();
    assert_eq!(huoshan::prepare(&ctx, TS).unwrap_err(), TransError::HuoShanConfig);
}

#[test]
fn tencent_signed_golden() {
    let ctx = context_all("hello", "auto", "zh");
    let s = tencent::prepare(&ctx, TS).unwrap();
    assert_eq!(
        s.body,
        "{\"SourceText\":\"hello\",\"ProjectId\":0,\"Target\":\"zh\",\"Source\":\"auto\"}"
    );
    assert_eq!(s.timestamp, "1700000000");
    assert_eq!(
        s.authorization,
        "TC3-HMAC-SHA256 Credential=key1/2023-11-14/tmt/tc3_request, SignedHeaders=content-type;host, Signature=307f9afc372cca68e386d6f635b75542c82a30ccc974bed9eb19be915c4cab57"
    );
    let h = s.headers();
    assert_eq!(h.len(), 7);
    assert_eq!(h[0], ("x-tc-action".to_string(), "TextTranslate".to_string()));
    assert_eq!(h[1], ("x-tc-version".to_string(), "2018-03-21".to_string()));
    assert_eq!(h[2], ("x-tc-region".to_string(), "ap-shanghai".to_string()));
    assert_eq!(h[3], ("x-tc-timestamp".to_string(), "1700000000".to_string()));
    assert_eq!(
        h[4],
        ("content-type".to_string(), "application/json; charset=utf-8".to_string())
    );
    assert_eq!(h[5], ("host".to_string(), "tmt.tencentcloudapi.com".to_string()));
    assert_eq!(h[6], ("authorization".to_string(), s.authorization.clone()));
}

#[test]
fn tencent_disabled_is_config_error() {
    let ctx = context_empty();
    assert_eq!(tencent::prepare(&ctx, TS).unwrap_err(), TransError::TencentConfig);
}

#[test]
fn addresses_are_fixed() {
    let ctx = context_empty();
    assert_eq!(ctx.baidu_address(), "https://fanyi-api.baidu.com/api/trans/vip/translate");
    assert_eq!(
        ctx.aliyun_address(),
        "https://mt.cn-hangzhou.aliyuncs.com/api/translate/web/general"
    );
    assert_eq!(ctx.huoshan_address(), "https://open.volcengineapi.com");
    assert_eq!(ctx.tencent_address(), "https://tmt.tencentcloudapi.com");
}

#[test]
fn context_accessors_report_missing_credentials() {
    let ctx = context_empty();
    assert_eq!(ctx.baidu_key().unwrap_err(), TransError::BaiduConfig);
    assert_eq!(ctx.baidu_secret().unwrap_err(), TransError::BaiduConfig);
    assert_eq!(ctx.aliyun_key().unwrap_err(), TransError::AliYunConfig);
    assert_eq!(ctx.huoshan_secret().unwrap_err(), TransError::HuoShanConfig);
    assert_eq!(ctx.tencent_key().unwrap_err(), TransError::TencentConfig);
    let full = context_all("hi", "en", "zh");
    assert_eq!(full.baidu_key().unwrap(), "key1");
    assert_eq!(full.tencent_secret().unwrap(), "secret1");
    assert_eq!(full.req_ref().src_ref(), "hi");
    assert_eq!(full.req_ref().source_ref(), "en");
    assert_eq!(full.req_ref().target_ref(), "zh");
}
