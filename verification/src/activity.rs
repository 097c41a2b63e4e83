//! The presence that is sent to Discord, as plain values: which fields of the
//! configuration go into it.
use vstd::prelude::*;
use crate::config::{MAX_BUTTONS, buttons_model, copy_buttons, copy_opt, opt_text, ButtonModel, PresenceButton, PresenceConfig, PresenceModel};

verus! {

/// The images of a presence and their hover texts.
#[derive(Debug, Clone, PartialEq, Eq)]
pub struct AssetsPlan {
    pub large_image: Option<String>,
    pub large_text: Option<String>,
    pub small_image: Option<String>,
    pub small_text: Option<String>,
}

/// The presence to send: each field that is `None` is left out of it.
#[derive(Debug, Clone, PartialEq, Eq)]
pub struct ActivityPlan {
    pub state: Option<String>,
    pub details: Option<String>,
    /// Unix time in milliseconds shown as the start of the activity.
    pub start_timestamp: Option<i64>,
    pub assets: Option<AssetsPlan>,
    pub buttons: Option<Vec<PresenceButton>>,
}

/// Model of an [`AssetsPlan`].
#[verifier::ext_equal]
pub struct AssetsModel {
    pub large_image: Option<Seq<char>>,
    pub large_text: Option<Seq<char>>,
    pub small_image: Option<Seq<char>>,
    pub small_text: Option<Seq<char>>,
}

/// Model of an [`ActivityPlan`].
#[verifier::ext_equal]
pub struct ActivityModel {
    pub state: Option<Seq<char>>,
    pub details: Option<Seq<char>>,
    pub start_timestamp: Option<i64>,
    pub assets: Option<AssetsModel>,
    pub buttons: Option<Seq<ButtonModel>>,
}

impl View for AssetsPlan {
    type V = AssetsModel;

    open spec fn view(&self) -> AssetsModel {
        AssetsModel {
            large_image: opt_text(self.large_image),
            large_text: opt_text(self.large_text),
            small_image: opt_text(self.small_image),
            small_text: opt_text(self.small_text),
        }
    }
}

impl View for ActivityPlan {
    type V = ActivityModel;

    open spec fn view(&self) -> ActivityModel {
        ActivityModel {
            state: opt_text(self.state),
            details: opt_text(self.details),
            start_timestamp: self.start_timestamp,
            assets: match self.assets {
                Some(a) => Some(a@),
                None => None,
            },
            buttons: match self.buttons {
                Some(v) => Some(buttons_model(v@)),
                None => None,
            },
        }
    }
}

/// The presence built from the configuration `p`, with `start_ms` as the start
/// time: state and details as configured; the start time only when
/// `start_timestamp` is set; the images only when at least one is configured, and
/// each hover text only beside its image; the first two buttons, if any are configured.
pub open spec fn activity_of(p: PresenceModel, start_ms: i64) -> ActivityModel {
    ActivityModel {
        state: p.state,
        details: p.details,
        start_timestamp: if p.start_timestamp {
            Some(start_ms)
        } else {
            None
        },
        assets: if p.large_image is Some || p.small_image is Some {
            Some(
                AssetsModel {
                    large_image: p.large_image,
                    large_text: if p.large_image is Some {
                        p.large_text
                    } else {
                        None
                    },
                    small_image: p.small_image,
                    small_text: if p.small_image is Some {
                        p.small_text
                    } else {
                        None
                    },
                },
            )
        } else {
            None
        },
        buttons: match p.buttons {
            Some(b) => Some(
                b.take(
                    if b.len() < MAX_BUTTONS {
                        b.len() as int
                    } else {
                        MAX_BUTTONS as int
                    },
                ),
            ),
            None => None,
        },
    }
}

/// The presence never carries more than `MAX_BUTTONS` buttons, never a
/// hover text without its image, and carries images exactly when one is configured.
pub proof fn lemma_activity_limits(p: PresenceModel, start_ms: i64)
    ensures
        activity_of(p, start_ms).buttons matches Some(b) ==> b.len() <= MAX_BUTTONS,
        activity_of(p, start_ms).assets is Some <==> (p.large_image is Some
            || p.small_image is Some),
        activity_of(p, start_ms).assets matches Some(a) ==> (a.large_text is Some
            ==> a.large_image is Some) && (a.small_text is Some ==> a.small_image is Some),
{
}

/// The presence carries the configuration as it is: the same state and details;
/// the start time exactly when asked for; each image as configured, with its
/// hover text as configured whenever the image is there; and, in their order and
/// unchanged, the first `min(n, MAX_BUTTONS)` of the `n` configured buttons.
pub proof fn lemma_activity_carries_config(p: PresenceModel, start_ms: i64)
    ensures
        activity_of(p, start_ms).state == p.state,
        activity_of(p, start_ms).details == p.details,
        p.start_timestamp ==> activity_of(p, start_ms).start_timestamp == Some(start_ms),
        !p.start_timestamp ==> activity_of(p, start_ms).start_timestamp is None,
        activity_of(p, start_ms).assets matches Some(a) ==> {
            &&& a.large_image == p.large_image
            &&& a.small_image == p.small_image
            &&& p.large_image is Some ==> a.large_text == p.large_text
            &&& p.small_image is Some ==> a.small_text == p.small_text
        },
        (p.buttons is None) == (activity_of(p, start_ms).buttons is None),
        p.buttons matches Some(b) ==> {
            let sent = activity_of(p, start_ms).buttons->0;
            &&& sent.len() == if b.len() < MAX_BUTTONS {
                b.len()
            } else {
                MAX_BUTTONS as nat
            }
            &&& forall|i: int|
                0 <= i < sent.len() ==> #[trigger] sent[i].label == b[i].label && sent[i].url
                    == b[i].url
        },
{
}

/// The presence to send for the configuration `presence`, with `start_time_ms`
/// (Unix time in milliseconds) as the start time.
pub fn build_activity(presence: &PresenceConfig, start_time_ms: i64) -> (a: ActivityPlan)
    ensures
        a@ == activity_of(presence@, start_time_ms),
{
    let start_timestamp = if presence.start_timestamp {
        Some(start_time_ms)
    } else {
        None
    };
    let assets = if presence.large_image.is_some() || presence.small_image.is_some() {
        Some(
            AssetsPlan {
                large_image: copy_opt(&presence.large_image),
                large_text: if presence.large_image.is_some() {
                    copy_opt(&presence.large_text)
                } else {
                    None
                },
                small_image: copy_opt(&presence.small_image),
                small_text: if presence.small_image.is_some() {
                    copy_opt(&presence.small_text)
                } else {
                    None
                },
            },
        )
    } else {
        None
    };
    let buttons = match &presence.buttons {
        Some(v) => Some(copy_buttons(v, MAX_BUTTONS)),
        None => None,
    };
    ActivityPlan {
        state: copy_opt(&presence.state),
        details: copy_opt(&presence.details),
        start_timestamp,
        assets,
        buttons,
    }
}

} // verus!
