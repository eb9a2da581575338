//! The per-request context a command handler runs with: the interaction
//! that invoked it, the invoker's locale, and the REST client
//! configuration bound to the bot token.

use vstd::prelude::*;
use crate::coercion::{FromCommandOptionValue, get_option, spec_get_option};
use crate::error::Error;
use crate::http::{HttpClient, HttpClientView};
use crate::i18n::Locales;
use crate::interaction::{ApplicationCommand, ApplicationCommandView};
use crate::response::{
    InteractionResponse, InteractionResponseBuilder, InteractionResponseBuilderView,
    InteractionResponseType,
};

verus! {

/// The context handed to a chat-input command handler.
#[derive(Debug, PartialEq)]
pub struct ChatInputCommandContext {
    pub interaction: ApplicationCommand,
    pub locale: Locales,
    pub http: HttpClient,
}

/// The view of a `ChatInputCommandContext`.
#[verifier::ext_equal]
pub struct ChatInputCommandContextView {
    pub interaction: ApplicationCommandView,
    pub locale: Locales,
    pub http: HttpClientView,
}

impl DeepView for ChatInputCommandContext {
    type V = ChatInputCommandContextView;

    open spec fn deep_view(&self) -> ChatInputCommandContextView {
        ChatInputCommandContextView {
            interaction: self.interaction.deep_view(),
            locale: self.locale,
            http: self.http.deep_view(),
        }
    }
}

impl ChatInputCommandContext {
    /// Builds the context for one invocation. The locale is parsed from
    /// the interaction's locale tag, falling back to `EnUS` when the tag is
    /// not a known code.
    pub fn new(interaction: ApplicationCommand, http: HttpClient) -> (r: Self)
        ensures
            r.deep_view() == (ChatInputCommandContextView {
                interaction: interaction.deep_view(),
                locale: match Locales::spec_from_code(interaction.locale@) {
                    Some(l) => l,
                    None => Locales::EnUS,
                },
                http: http.deep_view(),
            }),
    {
        let locale = match Locales::from_code(interaction.locale.as_str()) {
            Some(l) => l,
            None => Locales::EnUS,
        };
        let r = ChatInputCommandContext { interaction, locale, http };
        proof {
            assert(r.deep_view() =~= (ChatInputCommandContextView {
                interaction: r.interaction.deep_view(),
                locale,
                http: r.http.deep_view(),
            }));
        }
        r
    }

    /// Binds one required option of the invoking interaction to the target
    /// type.
    pub fn get_option<T: FromCommandOptionValue>(interaction: &ApplicationCommand, name: &str) -> (r:
        Result<T, Error>)
        ensures
            match r {
                Ok(v) => spec_get_option::<T>(interaction.options.deep_view(), name@) == Ok::<
                    T::V,
                    Error,
                >(v.deep_view()),
                Err(e) => spec_get_option::<T>(interaction.options.deep_view(), name@) == Err::<
                    T::V,
                    Error,
                >(e),
            },
    {
        get_option::<T>(&interaction.options, name)
    }

    /// Builds a channel-message response by applying `message` to a fresh
    /// response builder.
    pub fn message<F: FnOnce(InteractionResponseBuilder) -> InteractionResponseBuilder>(
        &self,
        message: F,
    ) -> (r: InteractionResponse)
        requires
            forall|b: InteractionResponseBuilder|
                b.deep_view() == (InteractionResponseBuilderView {
                    content: Seq::<char>::empty(),
                    flags: 0,
                }) ==> call_requires(message, (b,)),
        ensures
            exists|b0: InteractionResponseBuilder, b1: InteractionResponseBuilder|
                b0.deep_view() == (InteractionResponseBuilderView {
                    content: Seq::<char>::empty(),
                    flags: 0,
                }) && call_ensures(message, (b0,), b1) && r.deep_view() == b1.deep_view().built(
                    InteractionResponseType::ChannelMessageWithSource,
                ),
    {
        let start = InteractionResponseBuilder::new();
        let ghost start_snapshot = start;
        let filled = message(start);
        let r = filled.build(InteractionResponseType::ChannelMessageWithSource);
        proof {
            assert(call_ensures(message, (start_snapshot,), filled));
        }
        r
    }
}

} // verus!
