//! Model providers and the command-line facts that select one.
use crate::text::{is_blank, strip_prefix, trimmed};
use vstd::prelude::*;
use vstd::string::*;

verus! {

/// The provider namespace of a model name. It selects both the expected secret and the
/// namespace of the model descriptor.
#[derive(Clone, Copy, Debug, PartialEq, Eq, Structural)]
pub enum ProviderKind {
    OpenRouter,
    CommandCode,
}

impl ProviderKind {
    /// The provider part of a model descriptor.
    pub open spec fn descriptor(self) -> Seq<char> {
        match self {
            ProviderKind::OpenRouter => "openrouter"@,
            ProviderKind::CommandCode => "command-code"@,
        }
    }

    /// The environment variable that holds the secret of the provider.
    pub open spec fn key_variable(self) -> Seq<char> {
        match self {
            ProviderKind::OpenRouter => "OPENROUTER_API_KEY"@,
            ProviderKind::CommandCode => "COMMANDCODE_API_KEY"@,
        }
    }

    /// The prefix of the model names of the provider.
    pub open spec fn namespace(self) -> Seq<char> {
        match self {
            ProviderKind::OpenRouter => "openrouter/"@,
            ProviderKind::CommandCode => "commandcode/"@,
        }
    }

    /// The provider part of a model descriptor.
    pub fn descriptor_name(self) -> (r: &'static str)
        ensures
            r@ == self.descriptor(),
    {
        match self {
            ProviderKind::OpenRouter => "openrouter",
            ProviderKind::CommandCode => "command-code",
        }
    }

    /// The environment variable that holds the secret of the provider.
    pub fn api_key_name(self) -> (r: &'static str)
        ensures
            r@ == self.key_variable(),
    {
        match self {
            ProviderKind::OpenRouter => "OPENROUTER_API_KEY",
            ProviderKind::CommandCode => "COMMANDCODE_API_KEY",
        }
    }
}

/// The provider whose namespace a model name uses.
pub open spec fn model_provider(model: Seq<char>) -> Option<ProviderKind> {
    if "openrouter/"@.is_prefix_of(model) {
        Some(ProviderKind::OpenRouter)
    } else if "commandcode/"@.is_prefix_of(model) {
        Some(ProviderKind::CommandCode)
    } else {
        None
    }
}

/// What a model name selects: a provider and the name of the model there.
pub open spec fn model_selection(model: Seq<char>) -> Result<(ProviderKind, Seq<char>), Seq<char>> {
    match model_provider(model) {
        None => Err("--model must use the openrouter/<model> or commandcode/<model> namespace"@),
        Some(provider) => {
            let name = model.skip(provider.namespace().len() as int);
            if trimmed(name).len() == 0 {
                Err("--model must include a provider model name"@)
            } else {
                Ok((provider, name))
            }
        },
    }
}

/// The characters of a selected model name.
pub open spec fn selection_text(r: Result<(ProviderKind, String), String>) -> Result<
    (ProviderKind, Seq<char>),
    Seq<char>,
> {
    match r {
        Ok((provider, name)) => Ok((provider, name@)),
        Err(e) => Err(e@),
    }
}

/// Reads the provider and the model off a model name.
pub fn parse_model(model: &str) -> (r: Result<(ProviderKind, String), String>)
    ensures
        selection_text(r) == model_selection(model@),
{
    let (provider, name) = if let Some(name) = strip_prefix(model, "openrouter/") {
        (ProviderKind::OpenRouter, name)
    } else if let Some(name) = strip_prefix(model, "commandcode/") {
        (ProviderKind::CommandCode, name)
    } else {
        return Err(
            String::from_str(
                "--model must use the openrouter/<model> or commandcode/<model> namespace",
            ),
        );
    };
    if is_blank(name.as_str()) {
        return Err(String::from_str("--model must include a provider model name"));
    }
    Ok((provider, name))
}

/// The namespace and the model name make up the name that they were read off, and no other
/// provider's namespace fits it.
pub proof fn model_selection_reads_back(model: Seq<char>, provider: ProviderKind, name: Seq<char>)
    requires
        trimmed(name).len() > 0,
    ensures
        model_selection(model) == Ok::<(ProviderKind, Seq<char>), Seq<char>>((provider, name))
            <==> model == provider.namespace() + name,
{
    reveal_strlit("openrouter/");
    reveal_strlit("commandcode/");
    let whole = provider.namespace() + name;
    assert(whole.skip(provider.namespace().len() as int) =~= name);
    assert(provider.namespace() =~= whole.subrange(0, provider.namespace().len() as int));
    if "openrouter/"@.is_prefix_of(whole) && provider == ProviderKind::CommandCode {
        assert(whole[0] == 'o');
        assert(whole[0] == 'c');
    }
    if let Some(found) = model_provider(model) {
        let rest = model.skip(found.namespace().len() as int);
        assert(model =~= found.namespace() + rest);
    }
}

/// A model without a namespace of a provider is refused, and so is one whose name is blank.
pub proof fn unknown_models_are_refused(model: Seq<char>, name: Seq<char>)
    ensures
        !"openrouter/"@.is_prefix_of(model) && !"commandcode/"@.is_prefix_of(model)
            ==> model_selection(model) is Err,
        trimmed(name).len() == 0 ==> model_selection("openrouter/"@ + name) is Err
            && model_selection("commandcode/"@ + name) is Err,
{
    reveal_strlit("openrouter/");
    reveal_strlit("commandcode/");
    let a = "openrouter/"@ + name;
    let b = "commandcode/"@ + name;
    assert("openrouter/"@ =~= a.subrange(0, 11));
    assert("commandcode/"@ =~= b.subrange(0, 12));
    assert(a.skip(11) =~= name);
    assert(b.skip(12) =~= name);
    assert(!"openrouter/"@.is_prefix_of(b)) by {
        assert(b[0] == 'c' && "openrouter/"@[0] == 'o');
    }
}

/// The two providers have names, secrets and namespaces of their own.
pub proof fn providers_keep_their_own_names()
    ensures
        ProviderKind::OpenRouter.descriptor() == "openrouter"@,
        ProviderKind::CommandCode.descriptor() == "command-code"@,
        ProviderKind::OpenRouter.key_variable() == "OPENROUTER_API_KEY"@,
        ProviderKind::CommandCode.key_variable() == "COMMANDCODE_API_KEY"@,
        ProviderKind::OpenRouter.namespace() == "openrouter/"@,
        ProviderKind::CommandCode.namespace() == "commandcode/"@,
{
}

}
