//! Tencent Cloud TC3 signer: a POST request signed in the SigV4 style —
//! the canonical request is hashed into a string-to-sign carrying the Unix
//! timestamp, and MACed under a key derived from "TC3" + secret over the
//! date, service and request-type literals.

use vstd::prelude::*;

use vstd::string::StringExecFns;
use vstd::utf8::encode_utf8;

use crate::clock::{ymd_dashed_of, ymd_dashed_utc, TS_MAX};
use crate::common::{Context, TransError, TransRes, TransResult};
use crate::crypto::{hex_byte, hex_of, hmac_sha256_of, sha256_of, sha2_hmac, sha2_str};
use crate::text::{dec_int_of, dec_of, i32_to_dec, json_string_of, u64_to_dec, append_json_string};

verus! {

/// The JSON request body: SourceText, ProjectId, Target and Source, in this
/// order; the project identifier is a bare JSON number.
pub open spec fn body_json(
    src: Seq<char>,
    source: Seq<char>,
    target: Seq<char>,
    project_id: int,
) -> Seq<char> {
    "{\"SourceText\":"@ + json_string_of(src) + ",\"ProjectId\":"@ + dec_int_of(project_id)
        + ",\"Target\":"@ + json_string_of(target) + ",\"Source\":"@ + json_string_of(source)
        + "}"@
}

pub struct TencentReq {
    pub src: String,
    pub project_id: i32,
    pub target: String,
    pub source: String,
}

impl TencentReq {
    pub fn create(src: &str, source: &str, target: &str) -> (r: Self)
        ensures
            r.src@ == src@,
            r.project_id == 0,
            r.target@ == target@,
            r.source@ == source@,
    {
        TencentReq {
            src: src.to_owned(),
            project_id: 0,
            target: target.to_owned(),
            source: source.to_owned(),
        }
    }

    pub fn to_json(&self) -> (r: String)
        ensures
            r@ == body_json(self.src@, self.source@, self.target@, self.project_id as int),
    {
        let mut out = "{\"SourceText\":".to_owned();
        append_json_string(&mut out, self.src.as_str());
        out.append(",\"ProjectId\":");
        let pid = i32_to_dec(self.project_id);
        out.append(pid.as_str());
        out.append(",\"Target\":");
        append_json_string(&mut out, self.target.as_str());
        out.append(",\"Source\":");
        append_json_string(&mut out, self.source.as_str());
        out.append("}");
        assert(out@ =~= body_json(self.src@, self.source@, self.target@, self.project_id as int));
        out
    }
}

/// The canonical request: method, root path, empty query, the canonical
/// headers block, the signed-header list, and the hex SHA-256 digest of the
/// body, joined by newlines.
pub open spec fn canonical_request_spec(body_hash: Seq<char>) -> Seq<char> {
    "POST\n/\n\ncontent-type:application/json; charset=utf-8\nhost:tmt.tencentcloudapi.com\n\ncontent-type;host\n"@
        + body_hash
}

pub fn canonical_request(body_hash: &str) -> (r: String)
    ensures
        r@ == canonical_request_spec(body_hash@),
{
    let mut out =
        "POST\n/\n\ncontent-type:application/json; charset=utf-8\nhost:tmt.tencentcloudapi.com\n\ncontent-type;host\n".to_owned();
    out.append(body_hash);
    assert(out@ =~= canonical_request_spec(body_hash@));
    out
}

/// The string that is MACed: the algorithm name, the Unix timestamp in
/// decimal, the credential scope for the date, and the hex SHA-256 digest
/// of the canonical request, joined by newlines.
pub open spec fn string_to_sign_spec(date: Seq<char>, ts: u64, canonical: Seq<char>) -> Seq<char> {
    "TC3-HMAC-SHA256\n"@ + dec_of(ts as nat) + "\n"@ + date + "/tmt/tc3_request\n"@ + hex_of(
        sha256_of(canonical),
    )
}

pub fn string_to_sign(date: &str, ts: u64, canonical: &str) -> (r: String)
    ensures
        r@ == string_to_sign_spec(date@, ts, canonical@),
{
    let digest = sha2_str(canonical);
    let request_hash = hex_byte(digest.as_slice());
    let instant = u64_to_dec(ts);
    let mut out = "TC3-HMAC-SHA256\n".to_owned();
    out.append(instant.as_str());
    out.append("\n");
    out.append(date);
    out.append("/tmt/tc3_request\n");
    out.append(request_hash.as_str());
    assert(out@ =~= string_to_sign_spec(date@, ts, canonical@));
    out
}

/// The signing key: "TC3" + secret narrowed by an HMAC-SHA256 chain over
/// the date, the service and the request-type literal.
pub open spec fn derived_key_spec(secret: Seq<char>, date: Seq<char>) -> Seq<u8> {
    hmac_sha256_of(
        hmac_sha256_of(
            hmac_sha256_of(encode_utf8("TC3"@ + secret), encode_utf8(date)),
            encode_utf8("tmt"@),
        ),
        encode_utf8("tc3_request"@),
    )
}

pub fn derive_key(secret: &str, date: &str) -> (r: TransResult<Vec<u8>>)
    ensures
        r is Ok,
        r matches Ok(k) ==> k@ == derived_key_spec(secret@, date@),
{
    let mut seeded = "TC3".to_owned();
    seeded.append(secret);
    let k1 = match sha2_hmac(seeded.as_str().as_bytes(), date.as_bytes()) {
        Ok(v) => v,
        Err(e) => {
            return Err(e);
        },
    };
    let k2 = match sha2_hmac(k1.as_slice(), "tmt".as_bytes()) {
        Ok(v) => v,
        Err(e) => {
            return Err(e);
        },
    };
    match sha2_hmac(k2.as_slice(), "tc3_request".as_bytes()) {
        Ok(v) => Ok(v),
        Err(e) => Err(e),
    }
}

/// The final signature: hex of the HMAC-SHA256 tag of the string-to-sign
/// under the derived key.
pub open spec fn signature_spec(
    secret: Seq<char>,
    date: Seq<char>,
    ts: u64,
    canonical: Seq<char>,
) -> Seq<char> {
    hex_of(
        hmac_sha256_of(
            derived_key_spec(secret, date),
            encode_utf8(string_to_sign_spec(date, ts, canonical)),
        ),
    )
}

/// The authorization header value: the algorithm, the key and its scope,
/// the signed-header list and the hex signature.
pub open spec fn authorization_spec(key: Seq<char>, date: Seq<char>, sig: Seq<char>) -> Seq<char> {
    "TC3-HMAC-SHA256 Credential="@ + key + "/"@ + date
        + "/tmt/tc3_request, SignedHeaders=content-type;host, Signature="@ + sig
}

pub fn build_authorization(key: &str, date: &str, sig: &str) -> (r: String)
    ensures
        r@ == authorization_spec(key@, date@, sig@),
{
    let mut out = "TC3-HMAC-SHA256 Credential=".to_owned();
    out.append(key);
    out.append("/");
    out.append(date);
    out.append("/tmt/tc3_request, SignedHeaders=content-type;host, Signature=");
    out.append(sig);
    assert(out@ =~= authorization_spec(key@, date@, sig@));
    out
}

/// Everything the transport layer needs to issue the signed POST.
#[derive(Debug)]
pub struct TencentSigned {
    pub body: String,
    pub timestamp: String,
    pub authorization: String,
}

/// The signed request computed from the request fields, the credential and
/// the injected timestamp.
pub open spec fn signed_spec(
    src: Seq<char>,
    source: Seq<char>,
    target: Seq<char>,
    key: Seq<char>,
    secret: Seq<char>,
    ts: u64,
    s: TencentSigned,
) -> bool {
    let body = body_json(src, source, target, 0);
    let date = ymd_dashed_of(ts);
    let canonical = canonical_request_spec(hex_of(sha256_of(body)));
    &&& s.body@ == body
    &&& s.timestamp@ == dec_of(ts as nat)
    &&& s.authorization@ == authorization_spec(
        key,
        date,
        signature_spec(secret, date, ts, canonical),
    )
}

/// Signing is deterministic once the timestamp is injected: two signed
/// requests computed from the same request fields, credential and
/// timestamp agree in every field.
pub proof fn law_signing_deterministic(
    src: Seq<char>,
    source: Seq<char>,
    target: Seq<char>,
    key: Seq<char>,
    secret: Seq<char>,
    ts: u64,
    s1: TencentSigned,
    s2: TencentSigned,
)
    requires
        signed_spec(src, source, target, key, secret, ts, s1),
        signed_spec(src, source, target, key, secret, ts, s2),
    ensures
        s1.body@ == s2.body@,
        s1.timestamp@ == s2.timestamp@,
        s1.authorization@ == s2.authorization@,
{
}

impl TencentSigned {
    /// The seven request headers, in order, with their exact names.
    pub fn headers(&self) -> (r: Vec<(String, String)>)
        ensures
            r@.len() == 7,
            r@[0].0@ == "x-tc-action"@ && r@[0].1@ == "TextTranslate"@,
            r@[1].0@ == "x-tc-version"@ && r@[1].1@ == "2018-03-21"@,
            r@[2].0@ == "x-tc-region"@ && r@[2].1@ == "ap-shanghai"@,
            r@[3].0@ == "x-tc-timestamp"@ && r@[3].1@ == self.timestamp@,
            r@[4].0@ == "content-type"@ && r@[4].1@ == "application/json; charset=utf-8"@,
            r@[5].0@ == "host"@ && r@[5].1@ == "tmt.tencentcloudapi.com"@,
            r@[6].0@ == "authorization"@ && r@[6].1@ == self.authorization@,
    {
        let mut h: Vec<(String, String)> = Vec::new();
        h.push(("x-tc-action".to_owned(), "TextTranslate".to_owned()));
        h.push(("x-tc-version".to_owned(), "2018-03-21".to_owned()));
        h.push(("x-tc-region".to_owned(), "ap-shanghai".to_owned()));
        h.push(("x-tc-timestamp".to_owned(), self.timestamp.clone()));
        h.push(("content-type".to_owned(), "application/json; charset=utf-8".to_owned()));
        h.push(("host".to_owned(), "tmt.tencentcloudapi.com".to_owned()));
        h.push(("authorization".to_owned(), self.authorization.clone()));
        h
    }
}

/// The compute half of a Tencent call: the fully signed request for the
/// context's request at the injected timestamp, or the configuration error
/// when the provider is disabled.
pub fn prepare(context: &Context, ts: u64) -> (r: TransResult<TencentSigned>)
    requires
        ts < TS_MAX,
    ensures
        context.config.tencent matches Some(c) ==> (r matches Ok(s) && signed_spec(
            context.req.src@,
            context.req.source@,
            context.req.target@,
            c.key@,
            c.secret@,
            ts,
            s,
        )),
        context.config.tencent is None ==> (r matches Err(e) && e == TransError::TencentConfig),
{
    let key = match context.tencent_key() {
        Ok(k) => k,
        Err(e) => {
            return Err(e);
        },
    };
    let secret = match context.tencent_secret() {
        Ok(s) => s,
        Err(e) => {
            return Err(e);
        },
    };
    let req = context.req_ref();
    let body = TencentReq::create(req.src_ref(), req.source_ref(), req.target_ref());
    let body_str = body.to_json();
    let date = ymd_dashed_utc(ts);
    let digest = sha2_str(body_str.as_str());
    let body_hash = hex_byte(digest.as_slice());
    let canonical = canonical_request(body_hash.as_str());
    let to_sign = string_to_sign(date.as_str(), ts, canonical.as_str());
    let signing_key = match derive_key(secret, date.as_str()) {
        Ok(k) => k,
        Err(e) => {
            return Err(e);
        },
    };
    let tag = match sha2_hmac(signing_key.as_slice(), to_sign.as_str().as_bytes()) {
        Ok(v) => v,
        Err(e) => {
            return Err(e);
        },
    };
    let sig = hex_byte(tag.as_slice());
    let auth = build_authorization(key, date.as_str(), sig.as_str());
    let instant = u64_to_dec(ts);
    Ok(TencentSigned { body: body_str, timestamp: instant, authorization: auth })
}

/// The provider's response: the translated text sits in the Response
/// object.
pub struct TencentInnerRes {
    pub dst: String,
}

pub struct TencentRes {
    pub data: TencentInnerRes,
}

impl TencentRes {
    pub fn to_trans_res(&self) -> (r: TransRes)
        ensures
            r.result@ == self.data.dst@,
    {
        TransRes::create(self.data.dst.clone())
    }
}

} // verus!
