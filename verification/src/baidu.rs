//! Baidu signer: a GET request whose query carries the signature
//! hex(MD5(appid + sourceText + salt + secret)) under a fixed salt.

use vstd::prelude::*;

use vstd::string::StringExecFns;

use crate::common::{Context, TransError, TransRes, TransResult};
use crate::crypto::{hex_byte, hex_of, md5_of, md5_str};

verus! {

/// The Baidu signature: lowercase hex of the MD5 digest of the
/// concatenation appid + sourceText + salt + secret.
pub open spec fn sign_spec(
    key: Seq<char>,
    src: Seq<char>,
    salt: Seq<char>,
    secret: Seq<char>,
) -> Seq<char> {
    hex_of(md5_of(key + src + salt + secret))
}

pub fn sign(key: &str, src: &str, salt: &str, secret: &str) -> (r: String)
    ensures
        r@ == sign_spec(key@, src@, salt@, secret@),
{
    let mut content = key.to_owned();
    content.append(src);
    content.append(salt);
    content.append(secret);
    assert(content@ =~= key@ + src@ + salt@ + secret@);
    let digest = md5_str(content.as_str());
    hex_byte(digest.as_slice())
}

/// The six query parameters of a signed Baidu request, in order; `from` is
/// the request's source language ("auto" or explicit) and the salt is the
/// run's fixed constant.
pub open spec fn query_spec(
    src: Seq<char>,
    source: Seq<char>,
    target: Seq<char>,
    key: Seq<char>,
    secret: Seq<char>,
    q: Seq<(String, String)>,
) -> bool {
    &&& q.len() == 6
    &&& q[0].0@ == "q"@ && q[0].1@ == src
    &&& q[1].0@ == "from"@ && q[1].1@ == source
    &&& q[2].0@ == "to"@ && q[2].1@ == target
    &&& q[3].0@ == "salt"@ && q[3].1@ == "9527"@
    &&& q[4].0@ == "appid"@ && q[4].1@ == key
    &&& q[5].0@ == "sign"@ && q[5].1@ == sign_spec(key, src, "9527"@, secret)
}

pub fn build_query(src: &str, source: &str, target: &str, key: &str, secret: &str) -> (r: Vec<
    (String, String),
>)
    ensures
        query_spec(src@, source@, target@, key@, secret@, r@),
{
    let signature = sign(key, src, "9527", secret);
    let mut q: Vec<(String, String)> = Vec::new();
    q.push(("q".to_owned(), src.to_owned()));
    q.push(("from".to_owned(), source.to_owned()));
    q.push(("to".to_owned(), target.to_owned()));
    q.push(("salt".to_owned(), "9527".to_owned()));
    q.push(("appid".to_owned(), key.to_owned()));
    q.push(("sign".to_owned(), signature));
    q
}

/// Signing is deterministic: two query lists computed from the same
/// request fields and credential agree pairwise.
pub proof fn law_signing_deterministic(
    src: Seq<char>,
    source: Seq<char>,
    target: Seq<char>,
    key: Seq<char>,
    secret: Seq<char>,
    q1: Seq<(String, String)>,
    q2: Seq<(String, String)>,
)
    requires
        query_spec(src, source, target, key, secret, q1),
        query_spec(src, source, target, key, secret, q2),
    ensures
        q1.len() == q2.len(),
        forall|i: int| 0 <= i < q1.len() ==> #[trigger] q1[i].0@ == q2[i].0@,
        forall|i: int| 0 <= i < q1.len() ==> #[trigger] q1[i].1@ == q2[i].1@,
{
}

/// The compute half of a Baidu call: the signed query for the context's
/// request, or the configuration error when the provider is disabled.
pub fn prepare(context: &Context) -> (r: TransResult<Vec<(String, String)>>)
    ensures
        context.config.baidu matches Some(c) ==> (r matches Ok(q) && query_spec(
            context.req.src@,
            context.req.source@,
            context.req.target@,
            c.key@,
            c.secret@,
            q@,
        )),
        context.config.baidu is None ==> (r matches Err(e) && e == TransError::BaiduConfig),
{
    let key = match context.baidu_key() {
        Ok(k) => k,
        Err(e) => {
            return Err(e);
        },
    };
    let secret = match context.baidu_secret() {
        Ok(s) => s,
        Err(e) => {
            return Err(e);
        },
    };
    Ok(
        build_query(
            context.req_ref().src_ref(),
            context.req_ref().source_ref(),
            context.req_ref().target_ref(),
            key,
            secret,
        ),
    )
}

/// The provider's response: a list of translation entries, of which the
/// first carries the translated text.
pub struct BaiduInnerRes {
    pub dst: String,
}

pub struct BaiduRes {
    pub data: Vec<BaiduInnerRes>,
}

impl BaiduRes {
    /// An empty translation list is reported as a response error rather
    /// than undefined behaviour.
    pub fn to_trans_res(&self) -> (r: TransResult<TransRes>)
        ensures
            self.data@.len() > 0 ==> (r matches Ok(t) && t.result@ == self.data@[0].dst@),
            self.data@.len() == 0 ==> (r matches Err(e) && e == TransError::ResponseError),
    {
        if self.data.len() > 0 {
            Ok(TransRes::create(self.data[0].dst.clone()))
        } else {
            Err(TransError::ResponseError)
        }
    }
}

} // verus!
