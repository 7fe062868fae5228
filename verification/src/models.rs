//! The records of the application: templates, the stored configuration and
//! the entries of the history.

use crate::lookup::{lemma_position, position};
use crate::text::{append_str, from_chars, slice_chars, str_eq, to_chars};
use vstd::prelude::*;

verus! {

/// `Uuid::new_v4` of the uuid crate, written out by `to_string`: a random
/// identifier in the hyphenated form, which is 36 characters long. Nothing
/// else is known of it: two calls give different texts.
#[verifier::external_body]
fn fresh_identifier() -> (r: String)
    ensures
        r@.len() == 36,
{
    uuid::Uuid::new_v4().to_string()
}

/// `Utc::now` of the chrono crate, written out by `DateTime::to_rfc3339`:
/// the time of the call as text. Nothing is known of the text.
#[verifier::external_body]
fn current_timestamp() -> (r: String) {
    chrono::Utc::now().to_rfc3339()
}

// ---------------------------------------------------------------------------
// Templates
// ---------------------------------------------------------------------------

/// A prompt template, which a hotkey may be bound to.
#[derive(Debug)]
pub struct Template {
    /// The identifier by which a hotkey refers to the template.
    pub id: String,
    /// The name shown to the user.
    pub name: String,
    /// What the template is for.
    pub description: String,
    /// The prompt, with the placeholder for the clipboard text.
    pub prompt: String,
    /// The chord bound to the template, such as `Cmd+Shift+]`.
    pub hotkey: Option<String>,
    /// When the template was made.
    pub created_at: String,
}

impl Clone for Template {
    fn clone(&self) -> (r: Template)
        ensures
            r == *self,
    {
        Template {
            id: self.id.clone(),
            name: self.name.clone(),
            description: self.description.clone(),
            prompt: self.prompt.clone(),
            hotkey: match &self.hotkey {
                Some(h) => Some(h.clone()),
                None => None,
            },
            created_at: self.created_at.clone(),
        }
    }
}

impl Template {
    /// A template without a hotkey, under the identifier and the time of
    /// creation given.
    pub fn with_identity(
        id: String,
        created_at: String,
        name: String,
        description: String,
        prompt: String,
    ) -> (r: Template)
        ensures
            r == (Template { id, name, description, prompt, hotkey: None, created_at }),
    {
        Template { id, name, description, prompt, hotkey: None, created_at }
    }

    /// A new template without a hotkey, under a fresh random identifier and
    /// the current time.
    pub fn new(name: String, description: String, prompt: String) -> (r: Template)
        ensures
            r.name == name,
            r.description == description,
            r.prompt == prompt,
            r.hotkey is None,
            r.id@.len() == 36,
    {
        Template::with_identity(
            fresh_identifier(),
            current_timestamp(),
            name,
            description,
            prompt,
        )
    }
}

// ---------------------------------------------------------------------------
// The stored configuration
// ---------------------------------------------------------------------------

/// What the application keeps between runs.
#[derive(Debug)]
pub struct AppConfig {
    /// The user's templates.
    pub templates: Vec<Template>,
    /// The model used where a call names none; where there is none, the
    /// host's choice.
    pub default_model: Option<String>,
}

/// The identifiers of the templates, in their order.
pub open spec fn template_ids(templates: Seq<Template>) -> Seq<Seq<char>> {
    templates.map_values(|t: Template| t.id@)
}

/// The templates after one is saved: it takes the place of the first template
/// with its identifier, or the end of the list where there is none.
pub open spec fn saved(templates: Seq<Template>, template: Template) -> Seq<Template> {
    let i = position(template_ids(templates), template.id@);
    if i < templates.len() {
        templates.update(i, template)
    } else {
        templates.push(template)
    }
}

/// The templates without those of the identifier given.
pub open spec fn deleted(templates: Seq<Template>, id: Seq<char>) -> Seq<Template> {
    templates.filter(|t: Template| t.id@ != id)
}

/// The first template with the identifier given.
pub open spec fn found(templates: Seq<Template>, id: Seq<char>) -> Option<Template> {
    let i = position(template_ids(templates), id);
    if i < templates.len() {
        Some(templates[i])
    } else {
        None
    }
}

/// The templates that a hotkey is bound to.
pub open spec fn with_hotkey(templates: Seq<Template>) -> Seq<Template> {
    templates.filter(|t: Template| t.hotkey is Some)
}

impl Default for AppConfig {
    fn default() -> (r: AppConfig)
        ensures
            r.templates@ == Seq::<Template>::empty(),
            r.default_model is None,
    {
        AppConfig { templates: Vec::new(), default_model: None }
    }
}

impl AppConfig {
    fn position_of(&self, id: &str) -> (i: usize)
        ensures
            i == position(template_ids(self.templates@), id@),
            i <= self.templates.len(),
    {
        let n: usize = self.templates.len();
        let mut i: usize = 0;
        proof {
            lemma_position(template_ids(self.templates@), id@);
        }
        while i < n
            invariant
                i <= n,
                n == self.templates.len(),
                forall|j: int| 0 <= j < i ==> template_ids(self.templates@)[j] != id@,
            decreases n - i,
        {
            if str_eq(self.templates[i].id.as_str(), id) {
                proof {
                    lemma_position(template_ids(self.templates@), id@);
                    assert(template_ids(self.templates@)[i as int] == id@);
                }
                return i;
            }
            assert(template_ids(self.templates@)[i as int] != id@);
            i += 1;
        }
        i
    }

    /// The template with the identifier given, as it is now.
    pub fn find_template(&self, id: &str) -> (r: Option<Template>)
        ensures
            r == found(self.templates@, id@),
    {
        let i = self.position_of(id);
        if i < self.templates.len() {
            Some(self.templates[i].clone())
        } else {
            None
        }
    }

    /// Saves a template: over the one with its identifier, or as a new one.
    pub fn save_template(&mut self, template: Template)
        ensures
            final(self).templates@ == saved(old(self).templates@, template),
            final(self).default_model == old(self).default_model,
    {
        let i = self.position_of(template.id.as_str());
        if i < self.templates.len() {
            self.templates.set(i, template);
        } else {
            self.templates.push(template);
        }
    }

    /// Deletes the templates with the identifier given.
    pub fn delete_template(&mut self, id: &str)
        ensures
            final(self).templates@ == deleted(old(self).templates@, id@),
            final(self).default_model == old(self).default_model,
    {
        let mut kept: Vec<Template> = Vec::new();
        let ghost all = self.templates@;
        let ghost keep = |t: Template| t.id@ != id@;
        let mut i: usize = 0;
        proof {
            reveal(Seq::filter);
            assert(all.subrange(0, 0) =~= Seq::<Template>::empty());
        }
        while i < self.templates.len()
            invariant
                i <= self.templates.len(),
                all == self.templates@,
                keep == (|t: Template| t.id@ != id@),
                kept@ == all.subrange(0, i as int).filter(keep),
            decreases self.templates.len() - i,
        {
            proof {
                reveal(Seq::filter);
                assert(all.subrange(0, i + 1).drop_last() =~= all.subrange(0, i as int));
            }
            if !str_eq(self.templates[i].id.as_str(), id) {
                kept.push(self.templates[i].clone());
            }
            i += 1;
        }
        assert(all.subrange(0, all.len() as int) =~= all);
        self.templates = kept;
    }

    /// The number of templates that a hotkey is bound to.
    pub fn hotkey_count(&self) -> (n: usize)
        ensures
            n == with_hotkey(self.templates@).len(),
    {
        let ghost all = self.templates@;
        let ghost bound = |t: Template| t.hotkey is Some;
        let mut n: usize = 0;
        let mut i: usize = 0;
        proof {
            reveal(Seq::filter);
            assert(all.subrange(0, 0) =~= Seq::<Template>::empty());
        }
        while i < self.templates.len()
            invariant
                i <= self.templates.len(),
                all == self.templates@,
                bound == (|t: Template| t.hotkey is Some),
                n == all.subrange(0, i as int).filter(bound).len(),
                n <= i,
            decreases self.templates.len() - i,
        {
            proof {
                reveal(Seq::filter);
                assert(all.subrange(0, i + 1).drop_last() =~= all.subrange(0, i as int));
            }
            if self.templates[i].hotkey.is_some() {
                n += 1;
            }
            i += 1;
        }
        assert(all.subrange(0, all.len() as int) =~= all);
        n
    }
}

// ---------------------------------------------------------------------------
// History entries
// ---------------------------------------------------------------------------

/// The longest text that a preview shows in full.
pub const PREVIEW_LENGTH: usize = 100;

/// The preview of a text: the text itself if it has at most 100 characters,
/// else its first 100 characters followed by three dots.
pub open spec fn preview(text: Seq<char>) -> Seq<char> {
    if text.len() > 100 {
        text.subrange(0, 100) + "..."@
    } else {
        text
    }
}

/// The preview of a text.
pub fn make_preview(text: &str) -> (r: String)
    ensures
        r@ == preview(text@),
{
    let chars = to_chars(text);
    if chars.len() > PREVIEW_LENGTH {
        let mut head = slice_chars(&chars, 0, PREVIEW_LENGTH);
        append_str(&mut head, "...");
        from_chars(&head)
    } else {
        from_chars(&chars)
    }
}

/// One completed run: what was sent, what came back, under which template
/// and when.
#[derive(Debug)]
pub struct HistoryEntry {
    /// When the run ended.
    pub timestamp: String,
    /// The name of the template used.
    pub template_name: String,
    /// The preview of the source text.
    pub source_preview: String,
    /// The preview of the result text.
    pub result_preview: String,
    /// The source text in full.
    pub full_source: String,
    /// The result text in full.
    pub full_result: String,
}

impl Clone for HistoryEntry {
    fn clone(&self) -> (r: HistoryEntry)
        ensures
            r == *self,
    {
        HistoryEntry {
            timestamp: self.timestamp.clone(),
            template_name: self.template_name.clone(),
            source_preview: self.source_preview.clone(),
            result_preview: self.result_preview.clone(),
            full_source: self.full_source.clone(),
            full_result: self.full_result.clone(),
        }
    }
}

impl HistoryEntry {
    /// Whether the entry records this run: the template, the two texts in
    /// full and their previews.
    pub open spec fn records(
        self,
        template_name: Seq<char>,
        source: Seq<char>,
        result: Seq<char>,
    ) -> bool {
        &&& self.template_name@ == template_name
        &&& self.full_source@ == source
        &&& self.full_result@ == result
        &&& self.source_preview@ == preview(source)
        &&& self.result_preview@ == preview(result)
    }

    /// The entry of a run that ended at the time given.
    pub fn with_timestamp(
        timestamp: String,
        template_name: String,
        source: String,
        result: String,
    ) -> (r: HistoryEntry)
        ensures
            r.timestamp == timestamp,
            r.template_name == template_name,
            r.full_source == source,
            r.full_result == result,
            r.records(template_name@, source@, result@),
    {
        let source_preview = make_preview(source.as_str());
        let result_preview = make_preview(result.as_str());
        HistoryEntry {
            timestamp,
            template_name,
            source_preview,
            result_preview,
            full_source: source,
            full_result: result,
        }
    }

    /// The entry of a run that ends now. The time is read from the clock,
    /// so nothing is promised of the timestamp.
    pub fn new(template_name: String, source: String, result: String) -> (r: HistoryEntry)
        ensures
            r.template_name == template_name,
            r.full_source == source,
            r.full_result == result,
            r.records(template_name@, source@, result@),
    {
        HistoryEntry::with_timestamp(current_timestamp(), template_name, source, result)
    }
}

} // verus!
