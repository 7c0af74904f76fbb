//! The configuration of the model provider.

use vstd::prelude::*;
use vstd::string::*;
use crate::fixed::SCALE;

verus! {

/// How urgently requests are served.
#[derive(Clone, Copy, Debug)]
pub enum PriorityLevel {
    Force,
    Normal,
}

/// The provider's configuration. Temperature, nucleus mass and the two
/// penalties are in millionths.
#[derive(Clone, Debug)]
pub struct ProviderConfig {
    pub provider: String,
    pub api_key_ref: String,
    pub model: String,
    pub temperature: i64,
    pub max_tokens: u32,
    pub top_p: i64,
    pub frequency_penalty: i64,
    pub presence_penalty: i64,
    pub priority: PriorityLevel,
    pub context: String,
    pub compliance: Vec<String>,
    pub security: Vec<String>,
}

/// Why a configuration was not accepted.
#[derive(Debug)]
pub enum ConfigError {
    Invalid(String),
    Serde(String),
}

impl ConfigError {
    /// The text of the error.
    pub open spec fn text(&self) -> Seq<char> {
        match self {
            ConfigError::Invalid(m) => "invalid configuration: "@ + m@,
            ConfigError::Serde(m) => "serialization error: "@ + m@,
        }
    }

    /// Renders the error as text.
    pub fn message(&self) -> (s: String)
        ensures
            s@ == self.text(),
    {
        match self {
            ConfigError::Invalid(m) => String::from_str("invalid configuration: ").concat(
                m.as_str(),
            ),
            ConfigError::Serde(m) => String::from_str("serialization error: ").concat(m.as_str()),
        }
    }
}

impl ProviderConfig {
    /// The first rule that the configuration breaks, as the detail of its
    /// error; `None` when it breaks none.
    pub open spec fn validation_error(&self) -> Option<Seq<char>> {
        if self.temperature < 0 || self.temperature > SCALE {
            Some("temperature out of range"@)
        } else if self.top_p <= 0 || self.top_p > SCALE {
            Some("top_p out of range"@)
        } else if self.max_tokens == 0 {
            Some("max_tokens must be > 0"@)
        } else {
            None
        }
    }

    /// Validates the configuration: the temperature lies in the unit
    /// interval, the nucleus mass above zero and at most one, and some
    /// tokens are allowed.
    pub fn validate(&self) -> (r: Result<(), ConfigError>)
        ensures
            r is Ok <==> self.validation_error() is None,
            r is Err ==> (r->Err_0 matches ConfigError::Invalid(m) && Some(m@)
                == self.validation_error()),
    {
        if self.temperature < 0 || self.temperature > 1_000_000 {
            return Err(ConfigError::Invalid(String::from_str("temperature out of range")));
        }
        if self.top_p <= 0 || self.top_p > 1_000_000 {
            return Err(ConfigError::Invalid(String::from_str("top_p out of range")));
        }
        if self.max_tokens == 0 {
            return Err(ConfigError::Invalid(String::from_str("max_tokens must be > 0")));
        }
        Ok(())
    }
}

impl Default for ProviderConfig {
    /// The configuration that the provider starts with. It is valid.
    fn default() -> (c: Self)
        ensures
            c.provider@ == "morpheus_gpt"@,
            c.api_key_ref@ == "morpheus://neuromorph/sovereign-access"@,
            c.model@ == "Morpheus_GPT_Neuromorph_v1"@,
            c.temperature == 700_000,
            c.max_tokens == 2048,
            c.top_p == SCALE,
            c.frequency_penalty == 0,
            c.presence_penalty == 0,
            c.priority is Force,
            c.context@ == "neuromorph-free-knowledge-and-freedom-to-exist"@,
            c.compliance@.len() == 6,
            c.compliance@[0]@ == "GDPR"@,
            c.compliance@[1]@ == "SOC2"@,
            c.compliance@[2]@ == "ISO27001"@,
            c.compliance@[3]@ == "18 U.S.C. \u{a7} 1030"@,
            c.compliance@[4]@ == "NeuroRights-Charter"@,
            c.compliance@[5]@ == "ALN/KYC/DID"@,
            c.security@.len() == 3,
            c.security@[0]@ == "AES-256-GCM"@,
            c.security@[1]@ == "QuantumLedger-Compatible"@,
            c.security@[2]@ == "Googolswarm-Ownership-Proof"@,
            c.validation_error() is None,
    {
        let mut compliance: Vec<String> = Vec::new();
        compliance.push(String::from_str("GDPR"));
        compliance.push(String::from_str("SOC2"));
        compliance.push(String::from_str("ISO27001"));
        compliance.push(String::from_str("18 U.S.C. \u{a7} 1030"));
        compliance.push(String::from_str("NeuroRights-Charter"));
        compliance.push(String::from_str("ALN/KYC/DID"));
        let mut security: Vec<String> = Vec::new();
        security.push(String::from_str("AES-256-GCM"));
        security.push(String::from_str("QuantumLedger-Compatible"));
        security.push(String::from_str("Googolswarm-Ownership-Proof"));
        ProviderConfig {
            provider: String::from_str("morpheus_gpt"),
            api_key_ref: String::from_str("morpheus://neuromorph/sovereign-access"),
            model: String::from_str("Morpheus_GPT_Neuromorph_v1"),
            temperature: 700_000,
            max_tokens: 2048,
            top_p: 1_000_000,
            frequency_penalty: 0,
            presence_penalty: 0,
            priority: PriorityLevel::Force,
            context: String::from_str("neuromorph-free-knowledge-and-freedom-to-exist"),
            compliance,
            security,
        }
    }
}

} // verus!
