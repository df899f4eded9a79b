//! Verified core of a multi-provider text translator.
//!
//! The library covers the request-signing protocols of four translation
//! providers (Baidu, AliYun, HuoShan/Volcengine, Tencent Cloud), the JSON
//! bodies they sign, and the fan-out bookkeeping that guarantees one outcome
//! per enabled provider. Network I/O, configuration loading and terminal
//! output live outside the library.

pub mod aliyun;
pub mod baidu;
pub mod clock;
pub mod common;
pub mod crypto;
pub mod dispatch;
pub mod huoshan;
pub mod tencent;
pub mod text;
