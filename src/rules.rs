//! What a status record means for the overlay: its canonical activity flags,
//! its display text and label, and whether it asks for the window to be
//! shown. The word lists are a table that the embedding application can
//! replace.

use vstd::prelude::*;
use crate::record::{StatusRecord, StatusRecordView};
use crate::text::{has_any_infix, lower_of, to_lower, views_of, contains_any, is_one_of};

verus! {

/// The three canonical activity flags.
#[derive(Clone, Copy, Debug, PartialEq, Eq, Structural)]
pub struct ActivityFlags {
    pub listening: bool,
    pub speaking: bool,
    pub wake_word: bool,
}

impl ActivityFlags {
    pub open spec fn any(self) -> bool {
        self.listening || self.speaking || self.wake_word
    }
}

/// Word tables for reading status records.
pub struct DisplayRules {
    /// Texts that carry no content of their own ("Ready", "Offline", ...).
    pub placeholder_texts: Vec<String>,
    /// Words that, found in the status label or the text, ask for the window.
    pub highlight_words: Vec<String>,
    /// Lower-case words of a status label that mean the assistant listens.
    pub listening_words: Vec<String>,
    /// Lower-case words of a status label that mean the assistant speaks or works.
    pub speaking_words: Vec<String>,
    /// Lower-case words of a status label that mean the wake word was heard.
    pub wake_words: Vec<String>,
    /// Lower-case words of a status label that mean the assistant is idle,
    /// offline or failing.
    pub idle_words: Vec<String>,
}

pub struct RulesView {
    pub placeholder_texts: Seq<Seq<char>>,
    pub highlight_words: Seq<Seq<char>>,
    pub listening_words: Seq<Seq<char>>,
    pub speaking_words: Seq<Seq<char>>,
    pub wake_words: Seq<Seq<char>>,
    pub idle_words: Seq<Seq<char>>,
}

impl View for DisplayRules {
    type V = RulesView;

    open spec fn view(&self) -> RulesView {
        RulesView {
            placeholder_texts: views_of(self.placeholder_texts@),
            highlight_words: views_of(self.highlight_words@),
            listening_words: views_of(self.listening_words@),
            speaking_words: views_of(self.speaking_words@),
            wake_words: views_of(self.wake_words@),
            idle_words: views_of(self.idle_words@),
        }
    }
}

pub open spec fn flag_or_false(o: Option<bool>) -> bool {
    match o {
        Some(b) => b,
        None => false,
    }
}

/// The flags that a lower-cased status label stands for.
pub open spec fn label_flags(lowered: Seq<char>, rules: RulesView) -> ActivityFlags {
    if has_any_infix(lowered, rules.idle_words) {
        ActivityFlags { listening: false, speaking: false, wake_word: false }
    } else if has_any_infix(lowered, rules.wake_words) {
        ActivityFlags { listening: true, speaking: false, wake_word: true }
    } else {
        ActivityFlags {
            listening: has_any_infix(lowered, rules.listening_words),
            speaking: has_any_infix(lowered, rules.speaking_words),
            wake_word: false,
        }
    }
}

/// The record gives a status label and none of the three flags.
pub open spec fn label_only(r: StatusRecordView) -> bool {
    r.is_listening is None && r.is_speaking is None && r.wake_word_detected is None
        && r.status is Some
}

/// The canonical flags of a record: as given, a missing one false, unless
/// only a status label is given, which then decides all three.
pub open spec fn record_flags(r: StatusRecordView, rules: RulesView) -> ActivityFlags {
    if label_only(r) {
        label_flags(lower_of(r.status->0), rules)
    } else {
        ActivityFlags {
            listening: flag_or_false(r.is_listening),
            speaking: flag_or_false(r.is_speaking),
            wake_word: flag_or_false(r.wake_word_detected),
        }
    }
}

/// The display text: `text`, else `message`, else empty.
pub open spec fn record_text(r: StatusRecordView) -> Seq<char> {
    match r.text {
        Some(t) => t,
        None => match r.message {
            Some(m) => m,
            None => Seq::empty(),
        },
    }
}

/// The status label, `"Unknown"` when missing.
pub open spec fn record_status(r: StatusRecordView) -> Seq<char> {
    match r.status {
        Some(s) => s,
        None => "Unknown"@,
    }
}

/// A text worth showing: not empty and no placeholder.
pub open spec fn meaningful_text(t: Seq<char>, rules: RulesView) -> bool {
    t.len() > 0 && !rules.placeholder_texts.contains(t)
}

/// The visibility formula: some activity, a meaningful text, an explicit
/// request, or a highlight word in the label or the text.
pub open spec fn visible_formula(
    flags: ActivityFlags,
    text: Seq<char>,
    status: Seq<char>,
    requested: bool,
    rules: RulesView,
) -> bool {
    flags.any() || meaningful_text(text, rules) || requested || has_any_infix(
        status,
        rules.highlight_words,
    ) || has_any_infix(text, rules.highlight_words)
}

/// Whether a record asks for the window to be shown.
pub open spec fn derived_visible(r: StatusRecordView, rules: RulesView) -> bool {
    visible_formula(
        record_flags(r, rules),
        record_text(r),
        record_status(r),
        flag_or_false(r.overlay_visible),
        rules,
    )
}

fn owned(s: &str) -> (r: String)
    ensures
        r@ == s@,
{
    String::from_str(s)
}

impl DisplayRules {
    /// The standard tables.
    pub fn standard() -> (r: DisplayRules)
        ensures
            r@.placeholder_texts == seq!["Listening..."@, "Offline"@, "Ready"@, "Connected"@],
            r@.highlight_words == seq![
                "Przetwarzam"@,
                "Mówię"@,
                "myślę"@,
                "Response:"@,
                "Notification:"@,
            ],
            r@.listening_words == seq!["listening"@, "recording"@],
            r@.speaking_words == seq!["speaking"@, "processing"@, "thinking"@],
            r@.wake_words == seq!["wakeword"@, "detected"@],
            r@.idle_words == seq!["idle"@, "offline"@, "error"@],
    {
        let r = DisplayRules {
            placeholder_texts: vec![owned("Listening..."), owned("Offline"), owned("Ready"), owned("Connected")],
            highlight_words: vec![
                owned("Przetwarzam"),
                owned("Mówię"),
                owned("myślę"),
                owned("Response:"),
                owned("Notification:"),
            ],
            listening_words: vec![owned("listening"), owned("recording")],
            speaking_words: vec![owned("speaking"), owned("processing"), owned("thinking")],
            wake_words: vec![owned("wakeword"), owned("detected")],
            idle_words: vec![owned("idle"), owned("offline"), owned("error")],
        };
        assert(r@.placeholder_texts =~= seq!["Listening..."@, "Offline"@, "Ready"@, "Connected"@]);
        assert(r@.highlight_words =~= seq![
            "Przetwarzam"@,
            "Mówię"@,
            "myślę"@,
            "Response:"@,
            "Notification:"@,
        ]);
        assert(r@.listening_words =~= seq!["listening"@, "recording"@]);
        assert(r@.speaking_words =~= seq!["speaking"@, "processing"@, "thinking"@]);
        assert(r@.wake_words =~= seq!["wakeword"@, "detected"@]);
        assert(r@.idle_words =~= seq!["idle"@, "offline"@, "error"@]);
        r
    }

    /// The flags that an already lower-cased status label stands for.
    pub fn label_flags_lowered(&self, lowered: &str) -> (r: ActivityFlags)
        ensures
            r == label_flags(lowered@, self@),
    {
        if contains_any(lowered, &self.idle_words) {
            ActivityFlags { listening: false, speaking: false, wake_word: false }
        } else if contains_any(lowered, &self.wake_words) {
            ActivityFlags { listening: true, speaking: false, wake_word: true }
        } else {
            ActivityFlags {
                listening: contains_any(lowered, &self.listening_words),
                speaking: contains_any(lowered, &self.speaking_words),
                wake_word: false,
            }
        }
    }

    /// The canonical flags of a record.
    pub fn flags_of(&self, rec: &StatusRecord) -> (r: ActivityFlags)
        ensures
            r == record_flags(rec@, self@),
    {
        if rec.is_listening.is_none() && rec.is_speaking.is_none()
            && rec.wake_word_detected.is_none() {
            if let Some(label) = &rec.status {
                let lowered = to_lower(label.as_str());
                return self.label_flags_lowered(lowered.as_str());
            }
        }
        ActivityFlags {
            listening: unwrap_flag(rec.is_listening),
            speaking: unwrap_flag(rec.is_speaking),
            wake_word: unwrap_flag(rec.wake_word_detected),
        }
    }

    /// Whether a text is worth showing.
    pub fn is_meaningful(&self, t: &str) -> (r: bool)
        ensures
            r == meaningful_text(t@, self@),
    {
        t.unicode_len() > 0 && !is_one_of(t, &self.placeholder_texts)
    }

    /// Whether a record asks for the window to be shown.
    pub fn wants_visible(&self, rec: &StatusRecord) -> (r: bool)
        ensures
            r == derived_visible(rec@, self@),
    {
        let flags = self.flags_of(rec);
        let text = text_of(rec);
        let status = status_of(rec);
        self.visibility(flags, text.as_str(), status.as_str(), unwrap_flag(rec.overlay_visible))
    }

    /// The visibility formula on given flags, text and label.
    pub fn visibility(&self, flags: ActivityFlags, text: &str, status: &str, requested: bool) -> (r:
        bool)
        ensures
            r == visible_formula(flags, text@, status@, requested, self@),
    {
        flags.listening || flags.speaking || flags.wake_word || self.is_meaningful(text)
            || requested || contains_any(status, &self.highlight_words) || contains_any(
            text,
            &self.highlight_words,
        )
    }
}

pub fn unwrap_flag(o: Option<bool>) -> (r: bool)
    ensures
        r == flag_or_false(o),
{
    match o {
        Some(b) => b,
        None => false,
    }
}

/// The display text of a record.
pub fn text_of(rec: &StatusRecord) -> (r: String)
    ensures
        r@ == record_text(rec@),
{
    match &rec.text {
        Some(t) => t.clone(),
        None => match &rec.message {
            Some(m) => m.clone(),
            None => String::new(),
        },
    }
}

/// The status label of a record.
pub fn status_of(rec: &StatusRecord) -> (r: String)
    ensures
        r@ == record_status(rec@),
{
    match &rec.status {
        Some(s) => s.clone(),
        None => owned("Unknown"),
    }
}

} // verus!
