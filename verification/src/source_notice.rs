//! Session-only import disclosures; document timing and media metadata remain
//! authoritative.

use vstd::prelude::*;
use crate::text::{append_decimal, decimal};

verus! {

/// Retains source facts and dismissal independently of artwork history or
/// serialized state.
#[derive(Clone, Copy, Debug, Default, PartialEq, Eq, Structural)]
pub struct SourceNotice {
    /// The source has a variable frame rate.
    pub variable_frame_rate: bool,
    /// The source carries audio.
    pub has_audio: bool,
    /// The artist dismissed the notice.
    pub dismissed: bool,
    /// The notice is currently shown.
    pub presented: bool,
}

/// The project rate as shown to the artist: the numerator alone for whole
/// rates, else `numerator/denominator`.
pub open spec fn rate_text(numerator: u32, denominator: u32) -> Seq<char> {
    if denominator == 1 {
        decimal(numerator as nat)
    } else {
        decimal(numerator as nat) + "/"@ + decimal(denominator as nat)
    }
}

/// The variable-frame-rate disclosure for a project rate.
pub open spec fn frame_rate_part(numerator: u32, denominator: u32) -> Seq<char> {
    "Variable frame rate source. Project uses "@ + rate_text(numerator, denominator)
        + " fps; adjust in Animation settings. Frames may repeat or be skipped."@
}

/// The audio disclosure.
pub open spec fn audio_part() -> Seq<char> {
    "Source contains audio; exports are silent."@
}

/// The notice text for the current project rate, until dismissed: each
/// applicable disclosure, joined by one space.
pub open spec fn notice_text(notice: SourceNotice, numerator: u32, denominator: u32) -> Option<
    Seq<char>,
> {
    if notice.dismissed || (!notice.variable_frame_rate && !notice.has_audio) {
        None
    } else if notice.variable_frame_rate && notice.has_audio {
        Some(frame_rate_part(numerator, denominator) + " "@ + audio_part())
    } else if notice.variable_frame_rate {
        Some(frame_rate_part(numerator, denominator))
    } else {
        Some(audio_part())
    }
}

/// The notice after a dismissal: only a presented notice becomes dismissed,
/// and it is no longer presented either way.
pub open spec fn dismissed_notice(notice: SourceNotice) -> SourceNotice {
    SourceNotice {
        dismissed: notice.dismissed || notice.presented,
        presented: false,
        ..notice
    }
}

impl SourceNotice {
    /// Captures already-probed facts without creating a second timing or
    /// source authority.
    pub fn new(variable_frame_rate: bool, has_audio: bool) -> (notice: Self)
        ensures
            notice == (SourceNotice { variable_frame_rate, has_audio, dismissed: false, presented: false }),
    {
        SourceNotice { variable_frame_rate, has_audio, dismissed: false, presented: false }
    }

    /// Projects the current exact project rate and source disclosures until
    /// explicitly dismissed.
    pub fn message(&self, rate_numerator: u32, rate_denominator: u32) -> (text: Option<String>)
        ensures
            match notice_text(*self, rate_numerator, rate_denominator) {
                Some(expected) => text matches Some(t) && t@ == expected,
                None => text is None,
            },
    {
        if self.dismissed || (!self.variable_frame_rate && !self.has_audio) {
            return None;
        }
        let mut text = String::new();
        if self.variable_frame_rate {
            text.append("Variable frame rate source. Project uses ");
            append_decimal(&mut text, rate_numerator as u64);
            if rate_denominator != 1 {
                text.append("/");
                append_decimal(&mut text, rate_denominator as u64);
            }
            text.append(" fps; adjust in Animation settings. Frames may repeat or be skipped.");
            if self.has_audio {
                text.append(" ");
            }
        }
        if self.has_audio {
            text.append("Source contains audio; exports are silent.");
        }
        proof {
            if self.variable_frame_rate && self.has_audio {
                assert(text@ =~= frame_rate_part(rate_numerator, rate_denominator) + " "@
                    + audio_part());
            } else if self.variable_frame_rate {
                assert(text@ =~= frame_rate_part(rate_numerator, rate_denominator));
            } else {
                assert(text@ =~= audio_part());
            }
        }
        Some(text)
    }

    /// Dismisses only a currently presented source notice, preserving unseen
    /// notices behind errors.
    pub fn dismiss(&mut self)
        ensures
            *final(self) == dismissed_notice(*old(self)),
    {
        if self.presented {
            self.dismissed = true;
        }
        self.presented = false;
    }
}

/// Dismissing a presented notice hides it for the rest of the session, at
/// every project rate.
pub proof fn lemma_dismissed_notice_stays_hidden(
    notice: SourceNotice,
    numerator: u32,
    denominator: u32,
)
    requires
        notice.presented,
    ensures
        notice_text(dismissed_notice(notice), numerator, denominator) is None,
        notice_text(dismissed_notice(dismissed_notice(notice)), numerator, denominator) is None,
{
}

/// Dismissing a notice that is not presented leaves its text unchanged, so
/// an unseen notice behind an error is not lost.
pub proof fn lemma_unpresented_dismissal_keeps_text(
    notice: SourceNotice,
    numerator: u32,
    denominator: u32,
)
    requires
        !notice.presented,
    ensures
        notice_text(dismissed_notice(notice), numerator, denominator) == notice_text(
            notice,
            numerator,
            denominator,
        ),
{
}

} // verus!
