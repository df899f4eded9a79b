//! AliYun signer: a POST request with a JSON body whose base64 MD5 digest,
//! RFC 2822 date and per-call nonce are bound together by an HMAC-SHA1
//! signature in the `authorization` header.

use vstd::prelude::*;

use vstd::string::StringExecFns;
use vstd::utf8::encode_utf8;

use crate::clock::{rfc2822_of, rfc2822_utc, TS_MAX};
use crate::common::{Context, TransError, TransRes, TransResult};
use crate::crypto::{base64_byte, base64_of, hmac_sha1_of, md5_of, md5_str, sha1_hmac};
use crate::text::{dec_of, json_string_of, u64_to_dec, append_json_string};

verus! {

/// The JSON request body: FormatType, SourceLanguage, TargetLanguage,
/// SourceText and Scene, in this order, each a JSON string literal.
pub open spec fn body_json(
    src: Seq<char>,
    source: Seq<char>,
    target: Seq<char>,
    format: Seq<char>,
    scene: Seq<char>,
) -> Seq<char> {
    "{\"FormatType\":"@ + json_string_of(format) + ",\"SourceLanguage\":"@ + json_string_of(source)
        + ",\"TargetLanguage\":"@ + json_string_of(target) + ",\"SourceText\":"@
        + json_string_of(src) + ",\"Scene\":"@ + json_string_of(scene) + "}"@
}

pub struct AliYunReq {
    pub format: String,
    pub source: String,
    pub target: String,
    pub src: String,
    pub scene: String,
}

impl AliYunReq {
    pub fn create(src: &str, source: &str, target: &str) -> (r: Self)
        ensures
            r.format@ == "text"@,
            r.source@ == source@,
            r.target@ == target@,
            r.src@ == src@,
            r.scene@ == "general"@,
    {
        AliYunReq {
            format: "text".to_owned(),
            source: source.to_owned(),
            target: target.to_owned(),
            src: src.to_owned(),
            scene: "general".to_owned(),
        }
    }

    pub fn to_json(&self) -> (r: String)
        ensures
            r@ == body_json(self.src@, self.source@, self.target@, self.format@, self.scene@),
    {
        let mut out = "{\"FormatType\":".to_owned();
        append_json_string(&mut out, self.format.as_str());
        out.append(",\"SourceLanguage\":");
        append_json_string(&mut out, self.source.as_str());
        out.append(",\"TargetLanguage\":");
        append_json_string(&mut out, self.target.as_str());
        out.append(",\"SourceText\":");
        append_json_string(&mut out, self.src.as_str());
        out.append(",\"Scene\":");
        append_json_string(&mut out, self.scene.as_str());
        out.append("}");
        assert(out@ =~= body_json(self.src@, self.source@, self.target@, self.format@, self.scene@));
        out
    }
}

/// The canonical string that is signed: method, accept, the body digest,
/// content type, date, the two signature headers and the request path,
/// joined by newlines.
pub open spec fn canonical_spec(
    body_hash: Seq<char>,
    date: Seq<char>,
    nonce: Seq<char>,
) -> Seq<char> {
    "POST\napplication/json\n"@ + body_hash + "\napplication/json; charset=utf-8\n"@ + date
        + "\nx-acs-signature-method:HMAC-SHA1\nx-acs-signature-nonce:"@ + nonce
        + "\n/api/translate/web/general"@
}

pub fn canonical_string(body_hash: &str, date: &str, nonce: &str) -> (r: String)
    ensures
        r@ == canonical_spec(body_hash@, date@, nonce@),
{
    let mut out = "POST\napplication/json\n".to_owned();
    out.append(body_hash);
    out.append("\napplication/json; charset=utf-8\n");
    out.append(date);
    out.append("\nx-acs-signature-method:HMAC-SHA1\nx-acs-signature-nonce:");
    out.append(nonce);
    out.append("\n/api/translate/web/general");
    assert(out@ =~= canonical_spec(body_hash@, date@, nonce@));
    out
}

/// The signature over a canonical string: base64 of the HMAC-SHA1 tag of
/// its UTF-8 bytes under the secret's UTF-8 bytes.
pub open spec fn signature_spec(secret: Seq<char>, canonical: Seq<char>) -> Seq<char> {
    base64_of(hmac_sha1_of(encode_utf8(secret), encode_utf8(canonical)))
}

pub fn signature(secret: &str, canonical: &str) -> (r: TransResult<String>)
    ensures
        r is Ok,
        r matches Ok(s) ==> s@ == signature_spec(secret@, canonical@),
{
    let mac = match sha1_hmac(secret.as_bytes(), canonical.as_bytes()) {
        Ok(v) => v,
        Err(e) => {
            return Err(e);
        },
    };
    Ok(base64_byte(mac.as_slice()))
}

/// The authorization header value: "acs " + key + ":" + signature.
pub open spec fn authorization_spec(key: Seq<char>, sig: Seq<char>) -> Seq<char> {
    "acs "@ + key + ":"@ + sig
}

pub fn authorization(key: &str, sig: &str) -> (r: String)
    ensures
        r@ == authorization_spec(key@, sig@),
{
    let mut out = "acs ".to_owned();
    out.append(key);
    out.append(":");
    out.append(sig);
    assert(out@ =~= authorization_spec(key@, sig@));
    out
}

/// Everything the transport layer needs to issue the signed POST.
#[derive(Debug)]
pub struct AliYunSigned {
    pub body: String,
    pub content_md5: String,
    pub nonce: String,
    pub date: String,
    pub authorization: String,
}

/// The signed request computed from the request fields, the credential and
/// the injected timestamp: the nonce is the timestamp in decimal, the date
/// its RFC 2822 rendering, and the authorization binds the body digest,
/// date and nonce under the secret.
pub open spec fn signed_spec(
    src: Seq<char>,
    source: Seq<char>,
    target: Seq<char>,
    key: Seq<char>,
    secret: Seq<char>,
    ts: u64,
    s: AliYunSigned,
) -> bool {
    let body = body_json(src, source, target, "text"@, "general"@);
    let hash = base64_of(md5_of(body));
    let date = rfc2822_of(ts);
    let nonce = dec_of(ts as nat);
    let canonical = canonical_spec(hash, date, nonce);
    &&& s.body@ == body
    &&& s.content_md5@ == hash
    &&& s.nonce@ == nonce
    &&& s.date@ == date
    &&& s.authorization@ == authorization_spec(key, signature_spec(secret, canonical))
}

/// Signing is deterministic once the timestamp is injected: two signed
/// requests computed from the same request fields, credential and
/// timestamp agree in every field.
pub proof fn law_signing_deterministic(
    src: Seq<char>,
    source: Seq<char>,
    target: Seq<char>,
    key: Seq<char>,
    secret: Seq<char>,
    ts: u64,
    s1: AliYunSigned,
    s2: AliYunSigned,
)
    requires
        signed_spec(src, source, target, key, secret, ts, s1),
        signed_spec(src, source, target, key, secret, ts, s2),
    ensures
        s1.body@ == s2.body@,
        s1.content_md5@ == s2.content_md5@,
        s1.nonce@ == s2.nonce@,
        s1.date@ == s2.date@,
        s1.authorization@ == s2.authorization@,
{
}

impl AliYunSigned {
    /// The eight request headers, in order, with their exact names.
    pub fn headers(&self) -> (r: Vec<(String, String)>)
        ensures
            r@.len() == 8,
            r@[0].0@ == "content-md5"@ && r@[0].1@ == self.content_md5@,
            r@[1].0@ == "x-acs-signature-nonce"@ && r@[1].1@ == self.nonce@,
            r@[2].0@ == "x-acs-signature-method"@ && r@[2].1@ == "HMAC-SHA1"@,
            r@[3].0@ == "content-type"@ && r@[3].1@ == "application/json; charset=utf-8"@,
            r@[4].0@ == "accept"@ && r@[4].1@ == "application/json"@,
            r@[5].0@ == "host"@ && r@[5].1@ == "mt.cn-hangzhou.aliyuncs.com"@,
            r@[6].0@ == "date"@ && r@[6].1@ == self.date@,
            r@[7].0@ == "authorization"@ && r@[7].1@ == self.authorization@,
    {
        let mut h: Vec<(String, String)> = Vec::new();
        h.push(("content-md5".to_owned(), self.content_md5.clone()));
        h.push(("x-acs-signature-nonce".to_owned(), self.nonce.clone()));
        h.push(("x-acs-signature-method".to_owned(), "HMAC-SHA1".to_owned()));
        h.push(("content-type".to_owned(), "application/json; charset=utf-8".to_owned()));
        h.push(("accept".to_owned(), "application/json".to_owned()));
        h.push(("host".to_owned(), "mt.cn-hangzhou.aliyuncs.com".to_owned()));
        h.push(("date".to_owned(), self.date.clone()));
        h.push(("authorization".to_owned(), self.authorization.clone()));
        h
    }
}

/// The compute half of an AliYun call: the fully signed request for the
/// context's request at the injected timestamp, or the configuration error
/// when the provider is disabled.
pub fn prepare(context: &Context, ts: u64) -> (r: TransResult<AliYunSigned>)
    requires
        ts < TS_MAX,
    ensures
        context.config.aliyun matches Some(c) ==> (r matches Ok(s) && signed_spec(
            context.req.src@,
            context.req.source@,
            context.req.target@,
            c.key@,
            c.secret@,
            ts,
            s,
        )),
        context.config.aliyun is None ==> (r matches Err(e) && e == TransError::AliYunConfig),
{
    let key = match context.aliyun_key() {
        Ok(k) => k,
        Err(e) => {
            return Err(e);
        },
    };
    let secret = match context.aliyun_secret() {
        Ok(s) => s,
        Err(e) => {
            return Err(e);
        },
    };
    let req = context.req_ref();
    let body = AliYunReq::create(req.src_ref(), req.source_ref(), req.target_ref());
    let body_str = body.to_json();
    let digest = md5_str(body_str.as_str());
    let body_hash = base64_byte(digest.as_slice());
    let date = rfc2822_utc(ts);
    let nonce = u64_to_dec(ts);
    let canonical = canonical_string(body_hash.as_str(), date.as_str(), nonce.as_str());
    let sig = match signature(secret, canonical.as_str()) {
        Ok(s) => s,
        Err(e) => {
            return Err(e);
        },
    };
    let auth = authorization(key, sig.as_str());
    Ok(AliYunSigned { body: body_str, content_md5: body_hash, nonce, date, authorization: auth })
}

/// The provider's response: the translated text sits in the Data object.
pub struct AliYunInnerRes {
    pub dst: String,
}

pub struct AliYunRes {
    pub data: AliYunInnerRes,
}

impl AliYunRes {
    pub fn to_trans_res(&self) -> (r: TransRes)
        ensures
            r.result@ == self.data.dst@,
    {
        TransRes::create(self.data.dst.clone())
    }
}

} // verus!
