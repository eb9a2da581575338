//! The outbound interaction response: a response-kind tag plus optional
//! message data, and the builder that assembles one.

use vstd::prelude::*;
use vstd::string::StringExecFns;
use crate::json::spec_json_str;
use crate::text::{spec_u64_dec, u64_dec};

verus! {

/// The kind of an interaction response.
#[derive(Debug, Clone, Copy, PartialEq, Eq, Structural)]
pub enum InteractionResponseType {
    Pong,
    ChannelMessageWithSource,
    DeferredChannelMessageWithSource,
    DeferredUpdateMessage,
    UpdateMessage,
    ApplicationCommandAutocompleteResult,
    Modal,
}

impl DeepView for InteractionResponseType {
    type V = InteractionResponseType;

    open spec fn deep_view(&self) -> InteractionResponseType {
        *self
    }
}

impl InteractionResponseType {
    /// The numeric tag the wire schema uses for this response kind.
    pub open spec fn spec_tag(self) -> u64 {
        match self {
            InteractionResponseType::Pong => 1,
            InteractionResponseType::ChannelMessageWithSource => 4,
            InteractionResponseType::DeferredChannelMessageWithSource => 5,
            InteractionResponseType::DeferredUpdateMessage => 6,
            InteractionResponseType::UpdateMessage => 7,
            InteractionResponseType::ApplicationCommandAutocompleteResult => 8,
            InteractionResponseType::Modal => 9,
        }
    }

    /// Returns the numeric wire tag.
    pub fn tag(&self) -> (r: u64)
        ensures
            r == self.spec_tag(),
    {
        match self {
            InteractionResponseType::Pong => 1,
            InteractionResponseType::ChannelMessageWithSource => 4,
            InteractionResponseType::DeferredChannelMessageWithSource => 5,
            InteractionResponseType::DeferredUpdateMessage => 6,
            InteractionResponseType::UpdateMessage => 7,
            InteractionResponseType::ApplicationCommandAutocompleteResult => 8,
            InteractionResponseType::Modal => 9,
        }
    }
}

/// The message data of a response: only the content and the message flags
/// are exercised here.
#[derive(Debug, PartialEq)]
pub struct InteractionResponseData {
    pub content: Option<String>,
    pub flags: Option<u64>,
}

/// The view of an `InteractionResponseData`.
#[verifier::ext_equal]
pub struct InteractionResponseDataView {
    pub content: Option<Seq<char>>,
    pub flags: Option<u64>,
}

impl DeepView for InteractionResponseData {
    type V = InteractionResponseDataView;

    open spec fn deep_view(&self) -> InteractionResponseDataView {
        InteractionResponseDataView {
            content: self.content.deep_view(),
            flags: self.flags,
        }
    }
}

impl Clone for InteractionResponseData {
    fn clone(&self) -> (res: Self)
        ensures
            res.deep_view() == self.deep_view(),
    {
        let res = InteractionResponseData {
            content: match &self.content {
                Some(c) => Some(c.clone()),
                None => None,
            },
            flags: self.flags,
        };
        proof {
            assert(res.deep_view() =~= self.deep_view());
        }
        res
    }
}

/// One outbound interaction response.
#[derive(Debug, PartialEq)]
pub struct InteractionResponse {
    pub kind: InteractionResponseType,
    pub data: Option<InteractionResponseData>,
}

/// The view of an `InteractionResponse`.
#[verifier::ext_equal]
pub struct InteractionResponseView {
    pub kind: InteractionResponseType,
    pub data: Option<InteractionResponseDataView>,
}

impl DeepView for InteractionResponse {
    type V = InteractionResponseView;

    open spec fn deep_view(&self) -> InteractionResponseView {
        InteractionResponseView { kind: self.kind, data: self.data.deep_view() }
    }
}

impl Clone for InteractionResponse {
    fn clone(&self) -> (res: Self)
        ensures
            res.deep_view() == self.deep_view(),
    {
        let res = InteractionResponse {
            kind: self.kind,
            data: match &self.data {
                Some(d) => Some(d.clone()),
                None => None,
            },
        };
        proof {
            assert(res.deep_view() =~= self.deep_view());
        }
        res
    }
}

/// The JSON of the response data: `content` and `flags`, each omitted when
/// absent.
pub open spec fn spec_response_data_json(d: InteractionResponseDataView) -> Seq<char> {
    "{"@ + (match (d.content, d.flags) {
        (None, None) => Seq::<char>::empty(),
        (Some(c), None) => "\"content\":"@ + spec_json_str(c),
        (None, Some(f)) => "\"flags\":"@ + spec_u64_dec(f as nat),
        (Some(c), Some(f)) => "\"content\":"@ + spec_json_str(c) + ",\"flags\":"@ + spec_u64_dec(
            f as nat,
        ),
    }) + "}"@
}

/// The JSON of a response: `{"type":N}` without data, otherwise
/// `{"type":N,"data":{...}}`.
pub open spec fn spec_response_json(r: InteractionResponseView) -> Seq<char> {
    "{\"type\":"@ + spec_u64_dec(r.kind.spec_tag() as nat) + (match r.data {
        None => Seq::<char>::empty(),
        Some(d) => ",\"data\":"@ + spec_response_data_json(d),
    }) + "}"@
}

impl InteractionResponse {
    /// The response to a liveness ping: a pong, with no data.
    pub fn pong() -> (r: Self)
        ensures
            r.deep_view() == (InteractionResponseView {
                kind: InteractionResponseType::Pong,
                data: None,
            }),
    {
        InteractionResponse { kind: InteractionResponseType::Pong, data: None }
    }

    /// Returns the response's wire JSON.
    pub fn to_json_string(&self) -> (r: String)
        ensures
            r@ == spec_response_json(self.deep_view()),
    {
        let mut out = String::new();
        out.append("{\"type\":");
        let tag = u64_dec(self.kind.tag());
        out.append(tag.as_str());
        match &self.data {
            None => (),
            Some(d) => {
                out.append(",\"data\":");
                out.append("{");
                match (&d.content, &d.flags) {
                    (None, None) => (),
                    (Some(c), None) => {
                        out.append("\"content\":");
                        let s = crate::json::json_str(c.as_str());
                        out.append(s.as_str());
                    },
                    (None, Some(f)) => {
                        out.append("\"flags\":");
                        let s = u64_dec(*f);
                        out.append(s.as_str());
                    },
                    (Some(c), Some(f)) => {
                        out.append("\"content\":");
                        let s = crate::json::json_str(c.as_str());
                        out.append(s.as_str());
                        out.append(",\"flags\":");
                        let fs = u64_dec(*f);
                        out.append(fs.as_str());
                    },
                }
                out.append("}");
            },
        }
        out.append("}");
        proof {
            assert(out@ =~= spec_response_json(self.deep_view()));
        }
        out
    }
}

/// Builds an `InteractionResponse` from a message content and message
/// flags. Flags accumulate by bitwise or; a zero flag set and an empty
/// content are omitted from the built response.
#[derive(Debug, PartialEq)]
pub struct InteractionResponseBuilder {
    content: String,
    flags: u64,
}

/// The view of an `InteractionResponseBuilder`.
#[verifier::ext_equal]
pub struct InteractionResponseBuilderView {
    pub content: Seq<char>,
    pub flags: u64,
}

impl DeepView for InteractionResponseBuilder {
    type V = InteractionResponseBuilderView;

    closed spec fn deep_view(&self) -> InteractionResponseBuilderView {
        InteractionResponseBuilderView { content: self.content@, flags: self.flags }
    }
}

impl InteractionResponseBuilderView {
    /// The response that `build` produces from this builder state.
    pub open spec fn built(self, kind: InteractionResponseType) -> InteractionResponseView {
        InteractionResponseView {
            kind,
            data: Some(
                InteractionResponseDataView {
                    content: if self.content.len() == 0 {
                        None
                    } else {
                        Some(self.content)
                    },
                    flags: if self.flags == 0 {
                        None
                    } else {
                        Some(self.flags)
                    },
                },
            ),
        }
    }
}

impl InteractionResponseBuilder {
    /// Returns an empty builder: no content, no flags.
    pub fn new() -> (r: Self)
        ensures
            r.deep_view() == (InteractionResponseBuilderView {
                content: Seq::<char>::empty(),
                flags: 0,
            }),
    {
        let r = InteractionResponseBuilder { content: String::new(), flags: 0 };
        proof {
            assert(r.deep_view() =~= (InteractionResponseBuilderView {
                content: Seq::<char>::empty(),
                flags: 0u64,
            }));
        }
        r
    }

    /// Adds message flags to the response, keeping those already set.
    pub fn flag(self, flag: u64) -> (r: Self)
        ensures
            r.deep_view() == (InteractionResponseBuilderView {
                flags: self.deep_view().flags | flag,
                ..self.deep_view()
            }),
    {
        let r = InteractionResponseBuilder { content: self.content, flags: self.flags | flag };
        proof {
            assert(r.deep_view() =~= (InteractionResponseBuilderView {
                flags: self.deep_view().flags | flag,
                ..self.deep_view()
            }));
        }
        r
    }

    /// Sets the message content.
    pub fn content(self, content: &str) -> (r: Self)
        ensures
            r.deep_view() == (InteractionResponseBuilderView {
                content: content@,
                ..self.deep_view()
            }),
    {
        let r = InteractionResponseBuilder { content: content.to_owned(), flags: self.flags };
        proof {
            assert(r.deep_view() =~= (InteractionResponseBuilderView {
                content: content@,
                ..self.deep_view()
            }));
        }
        r
    }

    /// Builds the response of the given kind: the content is omitted when
    /// empty, the flags when none are set.
    pub fn build(&self, kind: InteractionResponseType) -> (r: InteractionResponse)
        ensures
            r.deep_view() == self.deep_view().built(kind),
    {
        let r = InteractionResponse {
            kind,
            data: Some(
                InteractionResponseData {
                    content: if self.content.as_str().is_empty() {
                        None
                    } else {
                        Some(self.content.clone())
                    },
                    flags: if self.flags == 0 {
                        None
                    } else {
                        Some(self.flags)
                    },
                },
            ),
        };
        proof {
            assert(r.deep_view() =~= self.deep_view().built(kind));
        }
        r
    }
}

impl Default for InteractionResponseBuilder {
    /// The default builder is the empty builder.
    fn default() -> (r: Self)
        ensures
            r.deep_view() == (InteractionResponseBuilderView {
                content: Seq::<char>::empty(),
                flags: 0,
            }),
    {
        InteractionResponseBuilder::new()
    }
}

} // verus!
