//! HuoShan/Volcengine signer: a POST request signed in the SigV4 style —
//! a canonical request is hashed into a string-to-sign, which is MACed
//! under a key derived from the secret by an HMAC-SHA256 chain over the
//! date, region, service and request-type literals.

use vstd::prelude::*;

use vstd::string::StringExecFns;
use vstd::utf8::encode_utf8;

use crate::clock::{ymd_basic_of, ymd_basic_utc, ymd_hms_basic_of, ymd_hms_basic_utc, TS_MAX};
use crate::common::{Context, TransError, TransRes, TransResult};
use crate::crypto::{hex_byte, hex_of, hmac_sha256_of, sha256_of, sha2_hmac, sha2_str};
use crate::text::{json_string_of, append_json_string};

verus! {

/// The comma-separated JSON string literals of a list, without brackets.
pub open spec fn json_string_list(items: Seq<Seq<char>>) -> Seq<char>
    decreases items.len(),
{
    if items.len() == 0 {
        Seq::empty()
    } else if items.len() == 1 {
        json_string_of(items[0])
    } else {
        json_string_of(items[0]) + seq![','] + json_string_list(items.drop_first())
    }
}

proof fn lemma_json_string_list_push(items: Seq<Seq<char>>, x: Seq<char>)
    ensures
        items.len() == 0 ==> json_string_list(items.push(x)) == json_string_of(x),
        items.len() > 0 ==> json_string_list(items.push(x)) == json_string_list(items)
            + seq![','] + json_string_of(x),
    decreases items.len(),
{
    if items.len() == 0 {
        assert(items.push(x).len() == 1);
        assert(items.push(x)[0] == x);
        assert(json_string_list(items.push(x)) == json_string_of(x));
    } else {
        assert(items.push(x).len() >= 2);
        assert(items.push(x)[0] == items[0]);
        assert(items.push(x).drop_first() =~= items.drop_first().push(x));
        lemma_json_string_list_push(items.drop_first(), x);
        if items.len() == 1 {
            assert(items.drop_first().len() == 0);
            assert(json_string_list(items.push(x)) =~= json_string_list(items) + seq![',']
                + json_string_of(x));
        } else {
            assert(json_string_list(items.push(x)) =~= json_string_list(items) + seq![',']
                + json_string_of(x));
        }
    }
}

/// The JSON request body: the target language and the list of texts to
/// translate.
pub open spec fn body_json(target: Seq<char>, data: Seq<Seq<char>>) -> Seq<char> {
    "{\"TargetLanguage\":"@ + json_string_of(target) + ",\"TextList\":["@ + json_string_list(data)
        + "]}"@
}

pub struct HuoShanReq {
    pub target: String,
    pub data: Vec<String>,
}

impl HuoShanReq {
    pub fn create(src: &str, target: &str) -> (r: Self)
        ensures
            r.target@ == target@,
            r.data.deep_view() =~= seq![src@],
    {
        let mut data: Vec<String> = Vec::new();
        data.push(src.to_owned());
        HuoShanReq { target: target.to_owned(), data }
    }

    pub fn to_json(&self) -> (r: String)
        ensures
            r@ == body_json(self.target@, self.data.deep_view()),
    {
        let mut out = "{\"TargetLanguage\":".to_owned();
        append_json_string(&mut out, self.target.as_str());
        out.append(",\"TextList\":[");
        let ghost head = out@;
        let mut i: usize = 0;
        while i < self.data.len()
            invariant
                i <= self.data@.len(),
                head == "{\"TargetLanguage\":"@ + json_string_of(self.target@)
                    + ",\"TextList\":["@,
                out@ == head + json_string_list(self.data.deep_view().take(i as int)),
            decreases self.data@.len() - i,
        {
            proof {
                assert(self.data.deep_view().take(i as int).push(self.data.deep_view()[i as int])
                    =~= self.data.deep_view().take(i as int + 1));
                lemma_json_string_list_push(
                    self.data.deep_view().take(i as int),
                    self.data.deep_view()[i as int],
                );
            }
            if i > 0 {
                out.append(",");
            }
            append_json_string(&mut out, self.data[i].as_str());
            proof {
                reveal_strlit(",");
                assert(","@ =~= seq![',']);
                assert(self.data.deep_view()[i as int] == self.data@[i as int]@);
                if i == 0 {
                    assert(self.data.deep_view().take(0) =~= Seq::<Seq<char>>::empty());
                    assert(json_string_list(Seq::<Seq<char>>::empty()) == Seq::<char>::empty());
                }
                assert(out@ =~= head + json_string_list(
                    self.data.deep_view().take(i as int + 1),
                ));
            }
            i += 1;
        }
        out.append("]}");
        proof {
            assert(self.data.deep_view().take(self.data@.len() as int) =~= self.data.deep_view());
            assert(out@ =~= body_json(self.target@, self.data.deep_view()));
        }
        out
    }
}

/// The canonical request: method, path, query, the canonical headers block
/// carrying the x-date, the signed-header list, and the hex SHA-256 digest
/// of the body, joined by newlines.
pub open spec fn canonical_request_spec(xdate: Seq<char>, body_hash: Seq<char>) -> Seq<char> {
    "POST\n/\nAction=TranslateText&Version=2020-06-01\ncontent-type:application/json; charset=utf-8\nhost:open.volcengineapi.com\nx-date:"@
        + xdate + "\n\ncontent-type;host;x-date\n"@ + body_hash
}

pub fn canonical_request(xdate: &str, body_hash: &str) -> (r: String)
    ensures
        r@ == canonical_request_spec(xdate@, body_hash@),
{
    let mut out =
        "POST\n/\nAction=TranslateText&Version=2020-06-01\ncontent-type:application/json; charset=utf-8\nhost:open.volcengineapi.com\nx-date:".to_owned();
    out.append(xdate);
    out.append("\n\ncontent-type;host;x-date\n");
    out.append(body_hash);
    assert(out@ =~= canonical_request_spec(xdate@, body_hash@));
    out
}

/// The string that is MACed: the algorithm name, the x-date, the credential
/// scope for the date, and the hex SHA-256 digest of the canonical request,
/// joined by newlines.
pub open spec fn string_to_sign_spec(
    date: Seq<char>,
    xdate: Seq<char>,
    canonical: Seq<char>,
) -> Seq<char> {
    "HMAC-SHA256\n"@ + xdate + "\n"@ + date + "/cn-north-1/translate/request\n"@ + hex_of(
        sha256_of(canonical),
    )
}

pub fn string_to_sign(date: &str, xdate: &str, canonical: &str) -> (r: String)
    ensures
        r@ == string_to_sign_spec(date@, xdate@, canonical@),
{
    let digest = sha2_str(canonical);
    let request_hash = hex_byte(digest.as_slice());
    let mut out = "HMAC-SHA256\n".to_owned();
    out.append(xdate);
    out.append("\n");
    out.append(date);
    out.append("/cn-north-1/translate/request\n");
    out.append(request_hash.as_str());
    assert(out@ =~= string_to_sign_spec(date@, xdate@, canonical@));
    out
}

/// The signing key: the secret narrowed by an HMAC-SHA256 chain over the
/// date, the region, the service and the request-type literal.
pub open spec fn derived_key_spec(secret: Seq<char>, date: Seq<char>) -> Seq<u8> {
    hmac_sha256_of(
        hmac_sha256_of(
            hmac_sha256_of(
                hmac_sha256_of(encode_utf8(secret), encode_utf8(date)),
                encode_utf8("cn-north-1"@),
            ),
            encode_utf8("translate"@),
        ),
        encode_utf8("request"@),
    )
}

pub fn derive_key(secret: &str, date: &str) -> (r: TransResult<Vec<u8>>)
    ensures
        r is Ok,
        r matches Ok(k) ==> k@ == derived_key_spec(secret@, date@),
{
    let k1 = match sha2_hmac(secret.as_bytes(), date.as_bytes()) {
        Ok(v) => v,
        Err(e) => {
            return Err(e);
        },
    };
    let k2 = match sha2_hmac(k1.as_slice(), "cn-north-1".as_bytes()) {
        Ok(v) => v,
        Err(e) => {
            return Err(e);
        },
    };
    let k3 = match sha2_hmac(k2.as_slice(), "translate".as_bytes()) {
        Ok(v) => v,
        Err(e) => {
            return Err(e);
        },
    };
    match sha2_hmac(k3.as_slice(), "request".as_bytes()) {
        Ok(v) => Ok(v),
        Err(e) => Err(e),
    }
}

/// The final signature: hex of the HMAC-SHA256 tag of the string-to-sign
/// under the derived key.
pub open spec fn signature_spec(
    secret: Seq<char>,
    date: Seq<char>,
    xdate: Seq<char>,
    canonical: Seq<char>,
) -> Seq<char> {
    hex_of(
        hmac_sha256_of(
            derived_key_spec(secret, date),
            encode_utf8(string_to_sign_spec(date, xdate, canonical)),
        ),
    )
}

/// The authorization header value: the algorithm, the key and its scope,
/// the signed-header list and the hex signature.
pub open spec fn authorization_spec(key: Seq<char>, date: Seq<char>, sig: Seq<char>) -> Seq<char> {
    "HMAC-SHA256 Credential="@ + key + "/"@ + date
        + "/cn-north-1/translate/request, SignedHeaders=content-type;host;x-date, Signature="@
        + sig
}

pub fn build_authorization(key: &str, date: &str, sig: &str) -> (r: String)
    ensures
        r@ == authorization_spec(key@, date@, sig@),
{
    let mut out = "HMAC-SHA256 Credential=".to_owned();
    out.append(key);
    out.append("/");
    out.append(date);
    out.append("/cn-north-1/translate/request, SignedHeaders=content-type;host;x-date, Signature=");
    out.append(sig);
    assert(out@ =~= authorization_spec(key@, date@, sig@));
    out
}

/// Everything the transport layer needs to issue the signed POST.
#[derive(Debug)]
pub struct HuoShanSigned {
    pub body: String,
    pub x_date: String,
    pub authorization: String,
}

/// The signed request computed from the request fields, the credential and
/// the injected timestamp.
pub open spec fn signed_spec(
    src: Seq<char>,
    target: Seq<char>,
    key: Seq<char>,
    secret: Seq<char>,
    ts: u64,
    s: HuoShanSigned,
) -> bool {
    let body = body_json(target, seq![src]);
    let date = ymd_basic_of(ts);
    let xdate = ymd_hms_basic_of(ts);
    let canonical = canonical_request_spec(xdate, hex_of(sha256_of(body)));
    &&& s.body@ == body
    &&& s.x_date@ == xdate
    &&& s.authorization@ == authorization_spec(
        key,
        date,
        signature_spec(secret, date, xdate, canonical),
    )
}

/// Signing is deterministic once the timestamp is injected: two signed
/// requests computed from the same request fields, credential and
/// timestamp agree in every field.
pub proof fn law_signing_deterministic(
    src: Seq<char>,
    target: Seq<char>,
    key: Seq<char>,
    secret: Seq<char>,
    ts: u64,
    s1: HuoShanSigned,
    s2: HuoShanSigned,
)
    requires
        signed_spec(src, target, key, secret, ts, s1),
        signed_spec(src, target, key, secret, ts, s2),
    ensures
        s1.body@ == s2.body@,
        s1.x_date@ == s2.x_date@,
        s1.authorization@ == s2.authorization@,
{
}

impl HuoShanSigned {
    /// The four request headers, in order, with their exact names.
    pub fn headers(&self) -> (r: Vec<(String, String)>)
        ensures
            r@.len() == 4,
            r@[0].0@ == "x-date"@ && r@[0].1@ == self.x_date@,
            r@[1].0@ == "content-type"@ && r@[1].1@ == "application/json; charset=utf-8"@,
            r@[2].0@ == "host"@ && r@[2].1@ == "open.volcengineapi.com"@,
            r@[3].0@ == "authorization"@ && r@[3].1@ == self.authorization@,
    {
        let mut h: Vec<(String, String)> = Vec::new();
        h.push(("x-date".to_owned(), self.x_date.clone()));
        h.push(("content-type".to_owned(), "application/json; charset=utf-8".to_owned()));
        h.push(("host".to_owned(), "open.volcengineapi.com".to_owned()));
        h.push(("authorization".to_owned(), self.authorization.clone()));
        h
    }

    /// The two query parameters that select the action and API version.
    pub fn query(&self) -> (r: Vec<(String, String)>)
        ensures
            r@.len() == 2,
            r@[0].0@ == "Action"@ && r@[0].1@ == "TranslateText"@,
            r@[1].0@ == "Version"@ && r@[1].1@ == "2020-06-01"@,
    {
        let mut q: Vec<(String, String)> = Vec::new();
        q.push(("Action".to_owned(), "TranslateText".to_owned()));
        q.push(("Version".to_owned(), "2020-06-01".to_owned()));
        q
    }
}

/// The compute half of a HuoShan call: the fully signed request for the
/// context's request at the injected timestamp, or the configuration error
/// when the provider is disabled.
pub fn prepare(context: &Context, ts: u64) -> (r: TransResult<HuoShanSigned>)
    requires
        ts < TS_MAX,
    ensures
        context.config.huoshan matches Some(c) ==> (r matches Ok(s) && signed_spec(
            context.req.src@,
            context.req.target@,
            c.key@,
            c.secret@,
            ts,
            s,
        )),
        context.config.huoshan is None ==> (r matches Err(e) && e == TransError::HuoShanConfig),
{
    let key = match context.huoshan_key() {
        Ok(k) => k,
        Err(e) => {
            return Err(e);
        },
    };
    let secret = match context.huoshan_secret() {
        Ok(s) => s,
        Err(e) => {
            return Err(e);
        },
    };
    let req = context.req_ref();
    let body = HuoShanReq::create(req.src_ref(), req.target_ref());
    let body_str = body.to_json();
    let date = ymd_basic_utc(ts);
    let xdate = ymd_hms_basic_utc(ts);
    let digest = sha2_str(body_str.as_str());
    let body_hash = hex_byte(digest.as_slice());
    let canonical = canonical_request(xdate.as_str(), body_hash.as_str());
    let to_sign = string_to_sign(date.as_str(), xdate.as_str(), canonical.as_str());
    let signing_key = match derive_key(secret, date.as_str()) {
        Ok(k) => k,
        Err(e) => {
            return Err(e);
        },
    };
    let tag = match sha2_hmac(signing_key.as_slice(), to_sign.as_str().as_bytes()) {
        Ok(v) => v,
        Err(e) => {
            return Err(e);
        },
    };
    let sig = hex_byte(tag.as_slice());
    let auth = build_authorization(key, date.as_str(), sig.as_str());
    Ok(HuoShanSigned { body: body_str, x_date: xdate, authorization: auth })
}

/// The provider's response: a list of translation entries, of which the
/// first carries the translated text.
pub struct HuoShanInnerRes {
    pub dst: String,
}

pub struct HuoShanRes {
    pub data: Vec<HuoShanInnerRes>,
}

impl HuoShanRes {
    /// An empty translation list is reported as a response error rather
    /// than undefined behaviour.
    pub fn to_trans_res(&self) -> (r: TransResult<TransRes>)
        ensures
            self.data@.len() > 0 ==> (r matches Ok(t) && t.result@ == self.data@[0].dst@),
            self.data@.len() == 0 ==> (r matches Err(e) && e == TransError::ResponseError),
    {
        if self.data.len() > 0 {
            Ok(TransRes::create(self.data[0].dst.clone()))
        } else {
            Err(TransError::ResponseError)
        }
    }
}

} // verus!
