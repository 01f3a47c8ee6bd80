//! The parachain templates on offer and the providers that publish them.
use crate::text::same;
use vstd::prelude::*;
use vstd::string::*;

verus! {

/// Token parameters of a generated parachain.
#[derive(Debug, Clone, PartialEq)]
pub struct Config {
    pub symbol: String,
    pub decimals: u8,
    pub initial_endowment: String,
}

/// A parachain template that can be scaffolded.
#[derive(Debug, Clone, Copy, PartialEq, Eq, Structural)]
pub enum Template {
    /// Pop's standard template.
    Base,
    /// OpenZeppelin's generic runtime template.
    OZTemplate,
    /// Parity's contracts node.
    ParityContracts,
    /// Parity's Frontier (EVM) parachain template.
    ParityFPT,
}

/// Who publishes a template.
#[derive(Debug, Clone, Copy, PartialEq, Eq, Structural)]
pub enum Provider {
    Pop,
    OpenZeppelin,
    Parity,
}

impl Template {
    /// Who publishes this template.
    pub open spec fn provider(self) -> Provider {
        match self {
            Template::Base => Provider::Pop,
            Template::OZTemplate => Provider::OpenZeppelin,
            Template::ParityContracts => Provider::Parity,
            Template::ParityFPT => Provider::Parity,
        }
    }

    /// The template that a short name stands for. An unknown name stands
    /// for the standard template.
    pub open spec fn named(name: Seq<char>) -> Template {
        if name == "base"@ {
            Template::Base
        } else if name == "template"@ {
            Template::OZTemplate
        } else if name == "cpt"@ {
            Template::ParityContracts
        } else if name == "fpt"@ {
            Template::ParityFPT
        } else {
            Template::Base
        }
    }

    /// Where the template's repository lives.
    pub open spec fn spec_repository_url(self) -> Seq<char> {
        match self {
            Template::Base => "https://github.com/r0gue-io/base-parachain"@,
            Template::OZTemplate => "https://github.com/OpenZeppelin/polkadot-runtime-template"@,
            Template::ParityContracts => "https://github.com/paritytech/substrate-contracts-node"@,
            Template::ParityFPT => "https://github.com/paritytech/frontier-parachain-template"@,
        }
    }

    /// Whether `provider` publishes this template.
    pub fn is_provider_correct(&self, provider: &Provider) -> (correct: bool)
        ensures
            correct == (self.provider() == *provider),
    {
        match provider {
            Provider::Pop => *self == Template::Base,
            Provider::OpenZeppelin => *self == Template::OZTemplate,
            Provider::Parity => *self == Template::ParityContracts || *self == Template::ParityFPT,
        }
    }

    /// The template that `provider_name` stands for.
    pub fn from(provider_name: &str) -> (template: Template)
        ensures
            template == Template::named(provider_name@),
    {
        if same(provider_name, "base") {
            Template::Base
        } else if same(provider_name, "template") {
            Template::OZTemplate
        } else if same(provider_name, "cpt") {
            Template::ParityContracts
        } else if same(provider_name, "fpt") {
            Template::ParityFPT
        } else {
            Template::Base
        }
    }

    /// Where the template's repository lives.
    pub fn repository_url(&self) -> (url: &'static str)
        ensures
            url@ == self.spec_repository_url(),
    {
        match self {
            Template::Base => "https://github.com/r0gue-io/base-parachain",
            Template::OZTemplate => "https://github.com/OpenZeppelin/polkadot-runtime-template",
            Template::ParityContracts => "https://github.com/paritytech/substrate-contracts-node",
            Template::ParityFPT => "https://github.com/paritytech/frontier-parachain-template",
        }
    }
}

impl Provider {
    /// The template a provider offers when none is asked for.
    pub open spec fn spec_default_template(self) -> Template {
        match self {
            Provider::Pop => Template::Base,
            Provider::OpenZeppelin => Template::OZTemplate,
            Provider::Parity => Template::ParityContracts,
        }
    }

    /// The provider that a name stands for. An unknown name stands for Pop.
    pub open spec fn named(name: Seq<char>) -> Provider {
        if name == "Pop"@ {
            Provider::Pop
        } else if name == "OpenZeppelin"@ {
            Provider::OpenZeppelin
        } else if name == "Parity"@ {
            Provider::Parity
        } else {
            Provider::Pop
        }
    }

    /// The template a provider offers when none is asked for. It is one of
    /// the provider's own.
    pub fn default_template(&self) -> (template: Template)
        ensures
            template == self.spec_default_template(),
            template.provider() == *self,
    {
        match self {
            Provider::Pop => Template::Base,
            Provider::OpenZeppelin => Template::OZTemplate,
            Provider::Parity => Template::ParityContracts,
        }
    }

    /// The provider that `provider_name` stands for.
    pub fn from(provider_name: &str) -> (provider: Provider)
        ensures
            provider == Provider::named(provider_name@),
    {
        if same(provider_name, "Pop") {
            Provider::Pop
        } else if same(provider_name, "OpenZeppelin") {
            Provider::OpenZeppelin
        } else if same(provider_name, "Parity") {
            Provider::Parity
        } else {
            Provider::Pop
        }
    }
}

impl Default for Provider {
    fn default() -> (provider: Provider)
        ensures
            provider == Provider::Pop,
    {
        Provider::Pop
    }
}

} // verus!
