//! The gateway's configuration: where to listen and how to reach the
//! backend.  Reading a configuration file is the shell's business; the
//! defaults and the validation rule live here.

use crate::models::error::AdaptorError;
use vstd::prelude::*;

verus! {

#[derive(Debug, Clone, PartialEq)]
pub struct Config {
    pub server: ServerConfig,
    pub qwen: QwenConfig,
}

#[derive(Debug, Clone, PartialEq)]
pub struct ServerConfig {
    pub host: String,
    pub port: u16,
}

#[derive(Debug, Clone, PartialEq)]
pub struct QwenConfig {
    pub api_key: String,
    pub base_url: String,
    pub model: String,
}

impl Default for Config {
    /// The configuration used when no file is present: the loopback
    /// server address and the stock backend endpoint.
    fn default() -> (r: Self)
        ensures
            r.server.host@ == "127.0.0.1"@,
            r.server.port == 8080,
            r.qwen.api_key@ == "test"@,
            r.qwen.base_url@ == "https://dashscope.aliyuncs.com/api/v1"@,
            r.qwen.model@ == "qwen3-coder"@,
    {
        Config {
            server: ServerConfig { host: String::from_str("127.0.0.1"), port: 8080 },
            qwen: QwenConfig {
                api_key: String::from_str("test"),
                base_url: String::from_str("https://dashscope.aliyuncs.com/api/v1"),
                model: String::from_str("qwen3-coder"),
            },
        }
    }
}

impl Config {
    /// A loaded configuration is usable exactly when its API key is
    /// non-empty; an empty key is a configuration error.
    pub fn validate(self) -> (r: Result<Config, AdaptorError>)
        ensures
            self.qwen.api_key@.len() == 0 ==> (r matches Err(AdaptorError::Configuration(m)) && m@
                == "API_KEY is empty"@),
            self.qwen.api_key@.len() > 0 ==> r == Result::<Config, AdaptorError>::Ok(self),
    {
        if self.qwen.api_key.as_str().unicode_len() == 0 {
            Err(AdaptorError::Configuration(String::from_str("API_KEY is empty")))
        } else {
            Ok(self)
        }
    }
}

} // verus!
