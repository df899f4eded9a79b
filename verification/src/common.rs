//! Shared data model: the translation request and result, the error
//! taxonomy, and the per-provider credential configuration.

use vstd::prelude::*;

verus! {

/// Every fallible operation of the library yields exactly one of these tags.
#[derive(Debug, Clone, Copy, PartialEq, Eq, Structural)]
pub enum TransError {
    RequestError,
    ResponseError,
    ParseConfig,
    BaiduConfig,
    TencentConfig,
    HuoShanConfig,
    AliYunConfig,
    SerdeError,
    HmacError,
    ChannelError,
}

pub type TransResult<T> = Result<T, TransError>;

/// The immutable translation request: source text, source language
/// (a language code or "auto"), and target language.
pub struct TransReq {
    pub src: String,
    pub source: String,
    pub target: String,
}

impl TransReq {
    pub fn create(src: &str, source: &str, target: &str) -> (r: Self)
        ensures
            r.src@ == src@,
            r.source@ == source@,
            r.target@ == target@,
    {
        TransReq {
            src: src.to_owned(),
            source: source.to_owned(),
            target: target.to_owned(),
        }
    }
}

impl TransReq {
    pub fn target_ref(&self) -> (r: &str)
        ensures
            r@ == self.target@,
    {
        self.target.as_str()
    }

    pub fn source_ref(&self) -> (r: &str)
        ensures
            r@ == self.source@,
    {
        self.source.as_str()
    }

    pub fn src_ref(&self) -> (r: &str)
        ensures
            r@ == self.src@,
    {
        self.src.as_str()
    }
}

/// A successful provider call carries just the translated text.
#[derive(Debug)]
pub struct TransRes {
    pub result: String,
}

impl TransRes {
    pub fn create(result: String) -> (r: Self)
        ensures
            r.result@ == result@,
    {
        TransRes { result }
    }

    pub fn result(&self) -> (r: &str)
        ensures
            r@ == self.result@,
    {
        self.result.as_str()
    }
}

/// One provider's key/secret pair; absence of the record disables the
/// provider.
#[derive(Debug, Clone)]
pub struct Credential {
    pub key: String,
    pub secret: String,
}

impl Credential {
    pub fn create(key: String, secret: String) -> (r: Self)
        ensures
            r.key@ == key@,
            r.secret@ == secret@,
    {
        Credential { key, secret }
    }
}

/// The credential table, built once before dispatch and never mutated.
#[derive(Debug, Clone)]
pub struct Config {
    pub baidu: Option<Credential>,
    pub aliyun: Option<Credential>,
    pub huoshan: Option<Credential>,
    pub tencent: Option<Credential>,
}

/// Declares reqwest's `Client` so the shared context can carry the HTTP
/// client handle through to the unverified transport layer; the library
/// never invokes it.
#[verifier::external_type_specification]
#[verifier::external_body]
pub struct ExClient(reqwest::Client);

/// The shared read-only context of one run: the request, the HTTP client
/// handle, and the credential table. Nothing mutates it after construction.
pub struct Context {
    pub req: TransReq,
    pub client: reqwest::Client,
    pub config: Config,
}

impl Context {
    pub fn create(req: TransReq, client: reqwest::Client, config: Config) -> (r: Self)
        ensures
            r.req == req,
            r.client == client,
            r.config == config,
    {
        Context { req, client, config }
    }

    pub fn req_ref(&self) -> (r: &TransReq)
        ensures
            r == &self.req,
    {
        &self.req
    }

    pub fn client_ref(&self) -> (r: &reqwest::Client)
        ensures
            r == &self.client,
    {
        &self.client
    }
}

impl Context {
    pub fn baidu_enabled(&self) -> (r: bool)
        ensures
            r == (self.config.baidu is Some),
    {
        self.config.baidu.is_some()
    }

    pub fn baidu_address(&self) -> (r: &str)
        ensures
            r@ == "https://fanyi-api.baidu.com/api/trans/vip/translate"@,
    {
        "https://fanyi-api.baidu.com/api/trans/vip/translate"
    }

    pub fn baidu_key<'a>(&'a self) -> (r: TransResult<&'a str>)
        ensures
            self.config.baidu matches Some(c) ==> (r matches Ok(k) && k@ == c.key@),
            self.config.baidu is None ==> (r matches Err(e) && e == TransError::BaiduConfig),
    {
        match &self.config.baidu {
            Some(c) => Ok(c.key.as_str()),
            None => Err(TransError::BaiduConfig),
        }
    }

    pub fn baidu_secret<'a>(&'a self) -> (r: TransResult<&'a str>)
        ensures
            self.config.baidu matches Some(c) ==> (r matches Ok(s) && s@ == c.secret@),
            self.config.baidu is None ==> (r matches Err(e) && e == TransError::BaiduConfig),
    {
        match &self.config.baidu {
            Some(c) => Ok(c.secret.as_str()),
            None => Err(TransError::BaiduConfig),
        }
    }

    pub fn aliyun_enabled(&self) -> (r: bool)
        ensures
            r == (self.config.aliyun is Some),
    {
        self.config.aliyun.is_some()
    }

    pub fn aliyun_address(&self) -> (r: &str)
        ensures
            r@ == "https://mt.cn-hangzhou.aliyuncs.com/api/translate/web/general"@,
    {
        "https://mt.cn-hangzhou.aliyuncs.com/api/translate/web/general"
    }

    pub fn aliyun_key<'a>(&'a self) -> (r: TransResult<&'a str>)
        ensures
            self.config.aliyun matches Some(c) ==> (r matches Ok(k) && k@ == c.key@),
            self.config.aliyun is None ==> (r matches Err(e) && e == TransError::AliYunConfig),
    {
        match &self.config.aliyun {
            Some(c) => Ok(c.key.as_str()),
            None => Err(TransError::AliYunConfig),
        }
    }

    pub fn aliyun_secret<'a>(&'a self) -> (r: TransResult<&'a str>)
        ensures
            self.config.aliyun matches Some(c) ==> (r matches Ok(s) && s@ == c.secret@),
            self.config.aliyun is None ==> (r matches Err(e) && e == TransError::AliYunConfig),
    {
        match &self.config.aliyun {
            Some(c) => Ok(c.secret.as_str()),
            None => Err(TransError::AliYunConfig),
        }
    }

    pub fn huoshan_enabled(&self) -> (r: bool)
        ensures
            r == (self.config.huoshan is Some),
    {
        self.config.huoshan.is_some()
    }

    pub fn huoshan_address(&self) -> (r: &str)
        ensures
            r@ == "https://open.volcengineapi.com"@,
    {
        "https://open.volcengineapi.com"
    }

    pub fn huoshan_key<'a>(&'a self) -> (r: TransResult<&'a str>)
        ensures
            self.config.huoshan matches Some(c) ==> (r matches Ok(k) && k@ == c.key@),
            self.config.huoshan is None ==> (r matches Err(e) && e == TransError::HuoShanConfig),
    {
        match &self.config.huoshan {
            Some(c) => Ok(c.key.as_str()),
            None => Err(TransError::HuoShanConfig),
        }
    }

    pub fn huoshan_secret<'a>(&'a self) -> (r: TransResult<&'a str>)
        ensures
            self.config.huoshan matches Some(c) ==> (r matches Ok(s) && s@ == c.secret@),
            self.config.huoshan is None ==> (r matches Err(e) && e == TransError::HuoShanConfig),
    {
        match &self.config.huoshan {
            Some(c) => Ok(c.secret.as_str()),
            None => Err(TransError::HuoShanConfig),
        }
    }

    pub fn tencent_enabled(&self) -> (r: bool)
        ensures
            r == (self.config.tencent is Some),
    {
        self.config.tencent.is_some()
    }

    pub fn tencent_address(&self) -> (r: &str)
        ensures
            r@ == "https://tmt.tencentcloudapi.com"@,
    {
        "https://tmt.tencentcloudapi.com"
    }

    pub fn tencent_key<'a>(&'a self) -> (r: TransResult<&'a str>)
        ensures
            self.config.tencent matches Some(c) ==> (r matches Ok(k) && k@ == c.key@),
            self.config.tencent is None ==> (r matches Err(e) && e == TransError::TencentConfig),
    {
        match &self.config.tencent {
            Some(c) => Ok(c.key.as_str()),
            None => Err(TransError::TencentConfig),
        }
    }

    pub fn tencent_secret<'a>(&'a self) -> (r: TransResult<&'a str>)
        ensures
            self.config.tencent matches Some(c) ==> (r matches Ok(s) && s@ == c.secret@),
            self.config.tencent is None ==> (r matches Err(e) && e == TransError::TencentConfig),
    {
        match &self.config.tencent {
            Some(c) => Ok(c.secret.as_str()),
            None => Err(TransError::TencentConfig),
        }
    }
}

impl Config {
    pub fn create(
        baidu: Option<Credential>,
        aliyun: Option<Credential>,
        huoshan: Option<Credential>,
        tencent: Option<Credential>,
    ) -> (r: Self)
        ensures
            r.baidu == baidu,
            r.aliyun == aliyun,
            r.huoshan == huoshan,
            r.tencent == tencent,
    {
        Config { baidu, aliyun, huoshan, tencent }
    }
}

} // verus!
