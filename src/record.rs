//! The records handed to persistence.

use vstd::prelude::*;

verus! {

/// Key presses of one application within one minute.
pub struct KeystrokeRecord {
    pub id: Option<i64>,
    /// Milliseconds since the Unix epoch of the first key press of the record.
    pub timestamp: i64,
    pub app_name: Option<String>,
    pub app_bundle_id: Option<String>,
    pub char_count: u32,
    pub word_count: u32,
    pub paragraph_count: u32,
    pub backspace_count: u32,
    pub browser_domain: Option<String>,
    pub browser_url: Option<String>,
}

pub open spec fn empty_record(timestamp: i64) -> KeystrokeRecord {
    KeystrokeRecord {
        id: None,
        timestamp,
        app_name: None,
        app_bundle_id: None,
        char_count: 0,
        word_count: 0,
        paragraph_count: 0,
        backspace_count: 0,
        browser_domain: None,
        browser_url: None,
    }
}

pub fn clone_text(s: &Option<String>) -> (r: Option<String>)
    ensures
        r == *s,
{
    match s {
        Some(t) => Some(t.clone()),
        None => None,
    }
}

impl KeystrokeRecord {
    /// A record with no application and no key presses.
    pub fn new(timestamp: i64) -> (r: KeystrokeRecord)
        ensures
            r == empty_record(timestamp),
    {
        KeystrokeRecord {
            id: None,
            timestamp,
            app_name: None,
            app_bundle_id: None,
            char_count: 0,
            word_count: 0,
            paragraph_count: 0,
            backspace_count: 0,
            browser_domain: None,
            browser_url: None,
        }
    }

    /// The same record with its application fields replaced.
    pub fn with_app(self, name: Option<String>, bundle_id: Option<String>) -> (r: KeystrokeRecord)
        ensures
            r == (KeystrokeRecord { app_name: name, app_bundle_id: bundle_id, ..self }),
    {
        KeystrokeRecord { app_name: name, app_bundle_id: bundle_id, ..self }
    }

    /// A copy of the record.
    pub fn duplicate(&self) -> (r: KeystrokeRecord)
        ensures
            r == *self,
    {
        KeystrokeRecord {
            id: self.id,
            timestamp: self.timestamp,
            app_name: clone_text(&self.app_name),
            app_bundle_id: clone_text(&self.app_bundle_id),
            char_count: self.char_count,
            word_count: self.word_count,
            paragraph_count: self.paragraph_count,
            backspace_count: self.backspace_count,
            browser_domain: clone_text(&self.browser_domain),
            browser_url: clone_text(&self.browser_url),
        }
    }
}

} // verus!
