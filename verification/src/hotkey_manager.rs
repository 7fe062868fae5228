//! The registry of active hotkeys: which chord triggers which template.
//!
//! The registry keeps the table; the host application talks to the platform.
//! A registration therefore takes two steps. `prepare_hotkey` reads the chord
//! and checks it against the table. The host then asks the platform to claim
//! the chord and hands the answer to `register_hotkey`, which stores the
//! binding if the platform agreed. `unregister_hotkey` removes a binding and
//! returns it, so that the host can release the chord.

use crate::hotkey::{
    code_name, describe, describe_hotkey, parse_chord, parse_hotkey_string, Chord, HotkeyError,
    HotkeyFailure,
};
use crate::lookup::{lemma_position, position};
use crate::text::{append_str, chars_eq_str, contains, contains_chars, from_chars, to_chars};
use vstd::prelude::*;

verus! {

/// One binding of a chord to a template, with the identifier under which the
/// platform reports the chord.
#[derive(Debug)]
pub struct Binding {
    pub id: u32,
    pub chord: Chord,
    pub template_id: String,
}

/// A binding as the contracts speak of it.
pub ghost struct Registration {
    pub id: u32,
    pub chord: Chord,
    pub template_id: Seq<char>,
}

impl View for Binding {
    type V = Registration;

    open spec fn view(&self) -> Registration {
        Registration { id: self.id, chord: self.chord, template_id: self.template_id@ }
    }
}

/// A press or release of a hotkey, as the platform reports it.
#[derive(Debug, Clone, Copy, PartialEq, Eq, Structural)]
pub struct HotkeyEvent {
    pub id: u32,
    pub pressed: bool,
}

// ---------------------------------------------------------------------------
// The table as a sequence
// ---------------------------------------------------------------------------

/// The identifiers of a table, in its order.
pub open spec fn ids(table: Seq<Registration>) -> Seq<u32> {
    table.map_values(|r: Registration| r.id)
}

/// The template identifiers of a table, in its order.
pub open spec fn templates(table: Seq<Registration>) -> Seq<Seq<char>> {
    table.map_values(|r: Registration| r.template_id)
}

/// No identifier and no template occurs twice in the table.
pub open spec fn well_formed(table: Seq<Registration>) -> bool {
    ids(table).no_duplicates() && templates(table).no_duplicates()
}

/// The template that the table binds to the identifier.
pub open spec fn resolve_in(table: Seq<Registration>, id: u32) -> Option<Seq<char>> {
    if ids(table).contains(id) {
        Some(table[position(ids(table), id)].template_id)
    } else {
        None
    }
}

/// Whether the table can take a binding of this identifier to this template:
/// neither is in it yet.
pub open spec fn can_register(table: Seq<Registration>, id: u32, template_id: Seq<char>) -> bool {
    !ids(table).contains(id) && !templates(table).contains(template_id)
}

/// The table after a registration.
pub open spec fn registered(table: Seq<Registration>, r: Registration) -> Seq<Registration> {
    table.push(r)
}

/// The table after the template's binding is removed; the table itself where
/// the template has none.
pub open spec fn unregistered(table: Seq<Registration>, template_id: Seq<char>) -> Seq<
    Registration,
> {
    if templates(table).contains(template_id) {
        table.remove(position(templates(table), template_id))
    } else {
        table
    }
}

/// The report of a registration for a template that has a hotkey already.
pub open spec fn already_bound(template_id: Seq<char>) -> Seq<char> {
    "Template already has a hotkey: "@ + template_id
}

/// The report of a key that the platform does not know.
pub open spec fn unsupported_key(name: Seq<char>) -> Seq<char> {
    "Key is not supported on this platform: "@ + name
}

/// The platform's words about a failed registration say that the chord is
/// taken: they hold `already` or `in use`.
pub open spec fn is_conflict(detail: Seq<char>) -> bool {
    contains(detail, "already"@) || contains(detail, "in use"@)
}

/// Turns the platform's words about a failed registration into an error.
pub fn classify_registration_failure(detail: String) -> (e: HotkeyError)
    ensures
        e@ == failure_of(detail@),
{
    let chars = to_chars(detail.as_str());
    let already = to_chars("already");
    let in_use = to_chars("in use");
    if contains_chars(&chars, &already) || contains_chars(&chars, &in_use) {
        HotkeyError::AlreadyInUse
    } else {
        HotkeyError::RegistrationFailed(detail)
    }
}

// ---------------------------------------------------------------------------
// The rules
// ---------------------------------------------------------------------------

/// What a failed registration means, from the platform's words.
pub open spec fn failure_of(detail: Seq<char>) -> HotkeyFailure {
    if is_conflict(detail) {
        HotkeyFailure::AlreadyInUse
    } else {
        HotkeyFailure::RegistrationFailed(detail)
    }
}

/// What `prepare_hotkey` answers for a table, a template and a chord's text.
/// The text must name a chord, and the platform must know its key; the
/// chord must not be in the table, and the template must have no chord yet.
pub open spec fn prepared(table: Seq<Registration>, template_id: Seq<char>, text: Seq<char>)
    -> Result<Registration, HotkeyFailure> {
    match parse_chord(text) {
        Err(msg) => Err(HotkeyFailure::InvalidSpec(msg)),
        Ok(chord) => match chord.platform_id() {
            None => Err(HotkeyFailure::InvalidSpec(unsupported_key(code_name(chord.key)))),
            Some(id) => if ids(table).contains(id) {
                Err(HotkeyFailure::AlreadyInUse)
            } else if templates(table).contains(template_id) {
                Err(HotkeyFailure::RegistrationFailed(already_bound(template_id)))
            } else {
                Ok(Registration { id, chord, template_id })
            },
        },
    }
}

/// What `register_hotkey` answers for a table, a prepared binding and the
/// platform's reply. A binding that does not fit the table is refused
/// whatever the platform said; else the platform decides.
pub open spec fn registration_result(
    table: Seq<Registration>,
    pending: Registration,
    reply: Result<(), Seq<char>>,
) -> Result<(), HotkeyFailure> {
    if ids(table).contains(pending.id) {
        Err(HotkeyFailure::AlreadyInUse)
    } else if templates(table).contains(pending.template_id) {
        Err(HotkeyFailure::RegistrationFailed(already_bound(pending.template_id)))
    } else {
        match reply {
            Ok(_) => Ok(()),
            Err(detail) => Err(failure_of(detail)),
        }
    }
}

/// The table after `register_hotkey`: with the binding at its end where the
/// call succeeds, unchanged where it fails.
pub open spec fn table_after_registration(
    table: Seq<Registration>,
    pending: Registration,
    reply: Result<(), Seq<char>>,
) -> Seq<Registration> {
    if registration_result(table, pending, reply) is Ok {
        registered(table, pending)
    } else {
        table
    }
}

/// The template that an event triggers: that of the event's identifier, for
/// a press; none for a release and where there is no event.
pub open spec fn triggered(table: Seq<Registration>, event: Option<HotkeyEvent>) -> Option<
    Seq<char>,
> {
    match event {
        Some(e) => if e.pressed {
            resolve_in(table, e.id)
        } else {
            None
        },
        None => None,
    }
}

/// A binding that fits a well-formed table leaves it well formed.
pub proof fn lemma_registered_well_formed(table: Seq<Registration>, r: Registration)
    requires
        well_formed(table),
        can_register(table, r.id, r.template_id),
    ensures
        well_formed(registered(table, r)),
{
    let after = registered(table, r);
    assert(ids(after) =~= ids(table).push(r.id));
    assert(templates(after) =~= templates(table).push(r.template_id));
    assert forall|i: int, j: int|
        0 <= i < ids(after).len() && 0 <= j < ids(after).len() && i != j implies ids(after)[i]
        != ids(after)[j] by {
        if i < table.len() {
            assert(ids(table)[i] == ids(after)[i]);
        }
        if j < table.len() {
            assert(ids(table)[j] == ids(after)[j]);
        }
    }
    assert forall|i: int, j: int|
        0 <= i < templates(after).len() && 0 <= j < templates(after).len() && i
            != j implies templates(after)[i] != templates(after)[j] by {
        if i < table.len() {
            assert(templates(table)[i] == templates(after)[i]);
        }
        if j < table.len() {
            assert(templates(table)[j] == templates(after)[j]);
        }
    }
}

/// Removing a binding leaves a well-formed table well formed.
pub proof fn lemma_removed_well_formed(table: Seq<Registration>, i: int)
    requires
        well_formed(table),
        0 <= i < table.len(),
    ensures
        well_formed(table.remove(i)),
{
    let after = table.remove(i);
    assert forall|a: int, b: int|
        0 <= a < ids(after).len() && 0 <= b < ids(after).len() && a != b implies ids(after)[a]
        != ids(after)[b] by {
        let a0 = if a < i { a } else { a + 1 };
        let b0 = if b < i { b } else { b + 1 };
        assert(ids(after)[a] == ids(table)[a0]);
        assert(ids(after)[b] == ids(table)[b0]);
    }
    assert forall|a: int, b: int|
        0 <= a < templates(after).len() && 0 <= b < templates(after).len() && a
            != b implies templates(after)[a] != templates(after)[b] by {
        let a0 = if a < i { a } else { a + 1 };
        let b0 = if b < i { b } else { b + 1 };
        assert(templates(after)[a] == templates(table)[a0]);
        assert(templates(after)[b] == templates(table)[b0]);
    }
}

// ---------------------------------------------------------------------------
// The registry
// ---------------------------------------------------------------------------

/// The bindings as the contracts speak of them.
pub open spec fn table_of(bindings: Seq<Binding>) -> Seq<Registration> {
    bindings.map_values(|b: Binding| b@)
}

/// The registry of active hotkeys. No chord identifier and no template occurs
/// twice in it.
pub struct HotkeyManager {
    bindings: Vec<Binding>,
}

impl View for HotkeyManager {
    type V = Seq<Registration>;

    closed spec fn view(&self) -> Seq<Registration> {
        table_of(self.bindings@)
    }
}

impl HotkeyManager {
    #[verifier::type_invariant]
    spec fn inv(self) -> bool {
        well_formed(self@)
    }

    /// A registry without bindings.
    pub fn new() -> (r: HotkeyManager)
        ensures
            r@ == Seq::<Registration>::empty(),
    {
        let r = HotkeyManager { bindings: Vec::new() };
        assert(r@ =~= Seq::<Registration>::empty());
        r
    }

    /// The number of bindings.
    pub fn len(&self) -> (n: usize)
        ensures
            n == self@.len(),
            well_formed(self@),
    {
        proof {
            use_type_invariant(self);
        }
        self.bindings.len()
    }

    /// Moves the bindings out and leaves the registry empty.
    fn take_bindings(&mut self) -> (bindings: Vec<Binding>)
        ensures
            bindings == old(self).bindings,
            final(self).bindings@ == Seq::<Binding>::empty(),
            final(self)@ == Seq::<Registration>::empty(),
    {
        let mut bindings: Vec<Binding> = Vec::new();
        proof {
            assert(table_of(bindings@) =~= Seq::<Registration>::empty());
            assert(ids(table_of(bindings@)) =~= Seq::<u32>::empty());
            assert(templates(table_of(bindings@)) =~= Seq::<Seq<char>>::empty());
        }
        std::mem::swap(&mut self.bindings, &mut bindings);
        bindings
    }

    fn find_template(&self, template_id: &str) -> (i: usize)
        ensures
            i == position(templates(self@), template_id@),
            i <= self.bindings.len(),
            i < self.bindings.len() <==> templates(self@).contains(template_id@),
    {
        let wanted = to_chars(template_id);
        let n: usize = self.bindings.len();
        let mut i: usize = 0;
        proof {
            lemma_position(templates(self@), template_id@);
        }
        while i < n
            invariant
                i <= n,
                n == self.bindings.len(),
                wanted@ == template_id@,
                forall|j: int| 0 <= j < i ==> templates(self@)[j] != template_id@,
            decreases n - i,
        {
            if chars_eq_str(&wanted, self.bindings[i].template_id.as_str()) {
                proof {
                    lemma_position(templates(self@), template_id@);
                    assert(templates(self@)[i as int] == template_id@);
                }
                return i;
            }
            assert(templates(self@)[i as int] != template_id@);
            i += 1;
        }
        i
    }

    fn find_id(&self, id: u32) -> (i: usize)
        ensures
            i == position(ids(self@), id),
            i <= self.bindings.len(),
            i < self.bindings.len() <==> ids(self@).contains(id),
    {
        let n: usize = self.bindings.len();
        let mut i: usize = 0;
        proof {
            lemma_position(ids(self@), id);
        }
        while i < n
            invariant
                i <= n,
                n == self.bindings.len(),
                forall|j: int| 0 <= j < i ==> ids(self@)[j] != id,
            decreases n - i,
        {
            if self.bindings[i].id == id {
                proof {
                    lemma_position(ids(self@), id);
                    assert(ids(self@)[i as int] == id);
                }
                return i;
            }
            assert(ids(self@)[i as int] != id);
            i += 1;
        }
        i
    }

    /// First step of a registration: reads the chord and checks that it can
    /// be bound to the template. The binding that comes back is what the host
    /// asks the platform to claim.
    pub fn prepare_hotkey(&self, template_id: String, hotkey_str: &str) -> (r: Result<
        Binding,
        HotkeyError,
    >)
        ensures
            match r {
                Ok(b) => prepared(self@, template_id@, hotkey_str@) == Ok::<
                    Registration,
                    HotkeyFailure,
                >(b@),
                Err(e) => prepared(self@, template_id@, hotkey_str@) == Err::<
                    Registration,
                    HotkeyFailure,
                >(e@),
            },
    {
        let chord = match parse_hotkey_string(hotkey_str) {
            Ok(chord) => chord,
            Err(e) => {
                return Err(e);
            },
        };
        let id = match chord.id() {
            Some(id) => id,
            None => {
                let mut msg = to_chars("Key is not supported on this platform: ");
                append_str(&mut msg, chord.key.name());
                return Err(HotkeyError::InvalidSpec(from_chars(&msg)));
            },
        };
        if self.find_id(id) < self.bindings.len() {
            return Err(HotkeyError::AlreadyInUse);
        }
        if self.find_template(template_id.as_str()) < self.bindings.len() {
            let mut msg = to_chars("Template already has a hotkey: ");
            append_str(&mut msg, template_id.as_str());
            return Err(HotkeyError::RegistrationFailed(from_chars(&msg)));
        }
        Ok(Binding { id, chord, template_id })
    }

    /// Second step of a registration: stores the binding if it fits the table
    /// and the platform accepted the chord. `os_reply` is the platform's
    /// answer, with its words where it refused.
    pub fn register_hotkey(&mut self, pending: Binding, os_reply: Result<(), String>) -> (r:
        Result<(), HotkeyError>)
        ensures
            match r {
                Ok(_) => registration_result(old(self)@, pending@, reply_view(os_reply)) is Ok,
                Err(e) => registration_result(old(self)@, pending@, reply_view(os_reply)) == Err::<
                    (),
                    HotkeyFailure,
                >(e@),
            },
            final(self)@ == table_after_registration(old(self)@, pending@, reply_view(os_reply)),
            well_formed(final(self)@),
    {
        proof {
            use_type_invariant(&*self);
        }
        if self.find_id(pending.id) < self.bindings.len() {
            return Err(HotkeyError::AlreadyInUse);
        }
        if self.find_template(pending.template_id.as_str()) < self.bindings.len() {
            let mut msg = to_chars("Template already has a hotkey: ");
            append_str(&mut msg, pending.template_id.as_str());
            return Err(HotkeyError::RegistrationFailed(from_chars(&msg)));
        }
        match os_reply {
            Ok(_) => {
                proof {
                    lemma_registered_well_formed(self@, pending@);
                    assert(table_of(self.bindings@.push(pending)) =~= registered(
                        self@,
                        pending@,
                    ));
                }
                let mut bindings = self.take_bindings();
                bindings.push(pending);
                self.bindings = bindings;
                Ok(())
            },
            Err(detail) => Err(classify_registration_failure(detail)),
        }
    }

    /// Removes the template's binding and returns it, so that the host can
    /// release the chord.
    pub fn unregister_hotkey(&mut self, template_id: &str) -> (r: Result<Binding, HotkeyError>)
        ensures
            final(self)@ == unregistered(old(self)@, template_id@),
            well_formed(final(self)@),
            match r {
                Ok(b) => templates(old(self)@).contains(template_id@) && b@ == old(self)@[position(
                    templates(old(self)@),
                    template_id@,
                )],
                Err(e) => !templates(old(self)@).contains(template_id@) && e@
                    == HotkeyFailure::NotRegistered,
            },
    {
        proof {
            use_type_invariant(&*self);
        }
        let i = self.find_template(template_id);
        if i >= self.bindings.len() {
            return Err(HotkeyError::NotRegistered);
        }
        proof {
            lemma_removed_well_formed(self@, i as int);
            assert(table_of(self.bindings@.remove(i as int)) =~= self@.remove(i as int));
        }
        let mut bindings = self.take_bindings();
        let b = bindings.remove(i);
        self.bindings = bindings;
        Ok(b)
    }

    /// The template bound to the chord with this identifier.
    pub fn resolve(&self, id: u32) -> (r: Option<String>)
        ensures
            match r {
                Some(t) => resolve_in(self@, id) == Some(t@),
                None => resolve_in(self@, id) is None,
            },
    {
        let i = self.find_id(id);
        if i < self.bindings.len() {
            Some(self.bindings[i].template_id.clone())
        } else {
            None
        }
    }

    /// One step of the poll: the template to run for what the platform
    /// reported, if anything. Only a press of a bound chord triggers one.
    pub fn check_events(&self, event: Option<HotkeyEvent>) -> (r: Option<String>)
        ensures
            match r {
                Some(t) => triggered(self@, event) == Some(t@),
                None => triggered(self@, event) is None,
            },
    {
        match event {
            Some(e) => {
                if e.pressed {
                    self.resolve(e.id)
                } else {
                    None
                }
            },
            None => None,
        }
    }

    /// The table as pairs of chord identifier and template, in the order of
    /// registration.
    pub fn get_hotkey_map(&self) -> (r: Vec<(u32, String)>)
        ensures
            r@.len() == self@.len(),
            forall|i: int|
                0 <= i < r@.len() ==> r@[i].0 == self@[i].id && r@[i].1@ == self@[i].template_id,
    {
        let mut out: Vec<(u32, String)> = Vec::new();
        let mut i: usize = 0;
        while i < self.bindings.len()
            invariant
                i <= self.bindings.len(),
                out@.len() == i,
                forall|j: int|
                    0 <= j < i ==> out@[j].0 == self@[j].id && out@[j].1@ == self@[j].template_id,
            decreases self.bindings.len() - i,
        {
            out.push((self.bindings[i].id, self.bindings[i].template_id.clone()));
            i += 1;
        }
        out
    }

    /// Empties the registry and returns every binding that it held, so that
    /// the host can release each chord.
    pub fn release_all(&mut self) -> (released: Vec<Binding>)
        ensures
            final(self)@ == Seq::<Registration>::empty(),
            table_of(released@) == old(self)@,
    {
        self.take_bindings()
    }

    /// Describes a hotkey given as a modifier list and a key-code name.
    pub fn hotkey_description(&self, modifiers_str: &str, key_str: &str) -> (r: String)
        ensures
            r@ == describe(modifiers_str@, key_str@),
    {
        describe_hotkey(modifiers_str, key_str)
    }
}

/// The platform's reply as the contracts speak of it.
pub open spec fn reply_view(reply: Result<(), String>) -> Result<(), Seq<char>> {
    match reply {
        Ok(_) => Ok(()),
        Err(d) => Err(d@),
    }
}

// ---------------------------------------------------------------------------
// Laws
// ---------------------------------------------------------------------------

/// A binding put at the end of a table that held neither its identifier nor
/// its template is found there, by either.
pub proof fn lemma_registered_is_last(table: Seq<Registration>, r: Registration)
    requires
        can_register(table, r.id, r.template_id),
    ensures
        position(ids(registered(table, r)), r.id) == table.len(),
        position(templates(registered(table, r)), r.template_id) == table.len(),
        ids(registered(table, r)).contains(r.id),
        templates(registered(table, r)).contains(r.template_id),
{
    let after = registered(table, r);
    lemma_position(ids(after), r.id);
    lemma_position(templates(after), r.template_id);
    assert(ids(after)[table.len() as int] == r.id);
    assert(templates(after)[table.len() as int] == r.template_id);
    let p = position(ids(after), r.id);
    if p < table.len() {
        assert(ids(table)[p] == ids(after)[p]);
    }
    let q = position(templates(after), r.template_id);
    if q < table.len() {
        assert(templates(table)[q] == templates(after)[q]);
    }
}

/// Registering a chord for a template and then unregistering the template
/// leaves the table as it was before. The same chord can therefore be
/// registered again: for the same template with the same answer as the first
/// time, and for any other template that has no chord.
pub proof fn lemma_register_then_unregister(
    table: Seq<Registration>,
    template_id: Seq<char>,
    text: Seq<char>,
    other: Seq<char>,
)
    requires
        well_formed(table),
        prepared(table, template_id, text) is Ok,
    ensures
        ({
            let r = prepared(table, template_id, text)->Ok_0;
            let after = unregistered(
                table_after_registration(table, r, Ok::<(), Seq<char>>(())),
                template_id,
            );
            &&& after == table
            &&& prepared(after, template_id, text) == prepared(table, template_id, text)
            &&& !templates(table).contains(other) ==> prepared(after, other, text) is Ok
        }),
{
    let r = prepared(table, template_id, text)->Ok_0;
    lemma_registered_is_last(table, r);
    assert(registered(table, r).remove(table.len() as int) =~= table);
}

/// Once a chord is registered for a template, a second registration of the
/// same chord, for whatever template and whatever the platform says, is
/// refused as already in use and leaves the table alone; the chord still
/// resolves to the first template.
pub proof fn lemma_second_registration_refused(
    table: Seq<Registration>,
    first: Seq<char>,
    second: Seq<char>,
    text: Seq<char>,
    reply: Result<(), Seq<char>>,
)
    requires
        well_formed(table),
        prepared(table, first, text) is Ok,
    ensures
        ({
            let r = prepared(table, first, text)->Ok_0;
            let after = table_after_registration(table, r, Ok::<(), Seq<char>>(()));
            let again = Registration { id: r.id, chord: r.chord, template_id: second };
            &&& prepared(after, second, text) == Err::<Registration, HotkeyFailure>(
                HotkeyFailure::AlreadyInUse,
            )
            &&& registration_result(after, again, reply) == Err::<(), HotkeyFailure>(
                HotkeyFailure::AlreadyInUse,
            )
            &&& table_after_registration(after, again, reply) == after
            &&& resolve_in(after, r.id) == Some(first)
            &&& well_formed(after)
        }),
{
    let r = prepared(table, first, text)->Ok_0;
    lemma_registered_is_last(table, r);
    lemma_registered_well_formed(table, r);
}

} // verus!
