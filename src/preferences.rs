//! The preference table: recognised keys, their defaults, and the values
//! committed to the durable store. The store itself lives with the caller;
//! a `Preferences` value mirrors what it holds and decides what to write.

use vstd::prelude::*;

verus! {

/// The recognised preference keys.
#[derive(Clone, Copy, Debug, PartialEq, Eq, Structural)]
pub enum PrefKey {
    /// Whether the inhibitor is engaged at launch.
    RunActivated,
    /// Whether a left click on the tray icon toggles the inhibitor.
    ToggleWithLeftClick,
}

#[derive(Clone, Copy, Debug, PartialEq, Eq, Structural)]
pub enum PrefError {
    /// The key has no value in the table.
    Missing,
}

pub open spec fn default_of(key: PrefKey) -> bool {
    match key {
        PrefKey::RunActivated => false,
        PrefKey::ToggleWithLeftClick => true,
    }
}

pub open spec fn key_name(key: PrefKey) -> Seq<char> {
    match key {
        PrefKey::RunActivated => "run_activated"@,
        PrefKey::ToggleWithLeftClick => "toggle_with_left_click"@,
    }
}

/// The value of a key, or the error that a read of it reports.
pub open spec fn lookup(m: Map<PrefKey, bool>, key: PrefKey) -> Result<bool, PrefError> {
    if m.contains_key(key) {
        Ok(m[key])
    } else {
        Err(PrefError::Missing)
    }
}

/// The table after first-run defaulting: every key has a value, and the
/// keys that had one keep it.
pub open spec fn initialized(m: Map<PrefKey, bool>) -> Map<PrefKey, bool> {
    Map::new(|k: PrefKey| true, |k: PrefKey| if m.contains_key(k) { m[k] } else { default_of(k) })
}

/// The keys without a value, in declaration order.
pub open spec fn missing_keys(m: Map<PrefKey, bool>) -> Seq<PrefKey> {
    (if m.contains_key(PrefKey::RunActivated) { seq![] } else { seq![PrefKey::RunActivated] })
        + (if m.contains_key(PrefKey::ToggleWithLeftClick) {
        seq![]
    } else {
        seq![PrefKey::ToggleWithLeftClick]
    })
}

/// The table after a toggle: a present value is flipped, an absent one stays absent.
pub open spec fn toggled(m: Map<PrefKey, bool>, key: PrefKey) -> Map<PrefKey, bool> {
    if m.contains_key(key) {
        m.insert(key, !m[key])
    } else {
        m
    }
}

/// The table after a series of committed writes, in order.
pub open spec fn saves(m: Map<PrefKey, bool>, ops: Seq<(PrefKey, bool)>) -> Map<PrefKey, bool>
    decreases ops.len(),
{
    if ops.len() == 0 {
        m
    } else {
        saves(m, ops.drop_last()).insert(ops.last().0, ops.last().1)
    }
}

/// The value of the last write of `key` in a series, if any.
pub open spec fn last_save(ops: Seq<(PrefKey, bool)>, key: PrefKey) -> Option<bool>
    decreases ops.len(),
{
    if ops.len() == 0 {
        None
    } else if ops.last().0 == key {
        Some(ops.last().1)
    } else {
        last_save(ops.drop_last(), key)
    }
}

impl PrefKey {
    /// The name under which the key is stored.
    pub fn name(&self) -> (r: &'static str)
        ensures
            r@ == key_name(*self),
    {
        match self {
            PrefKey::RunActivated => "run_activated",
            PrefKey::ToggleWithLeftClick => "toggle_with_left_click",
        }
    }

    /// The value a fresh table gives the key.
    pub fn default_value(&self) -> (r: bool)
        ensures
            r == default_of(*self),
    {
        match self {
            PrefKey::RunActivated => false,
            PrefKey::ToggleWithLeftClick => true,
        }
    }
}

/// The committed contents of the preference table.
#[derive(Clone, Copy, Debug)]
pub struct Preferences {
    run_activated: Option<bool>,
    toggle_with_left_click: Option<bool>,
}

impl Preferences {
    closed spec fn slot(&self, key: PrefKey) -> Option<bool> {
        match key {
            PrefKey::RunActivated => self.run_activated,
            PrefKey::ToggleWithLeftClick => self.toggle_with_left_click,
        }
    }
}

impl View for Preferences {
    type V = Map<PrefKey, bool>;

    closed spec fn view(&self) -> Map<PrefKey, bool> {
        Map::new(|k: PrefKey| self.slot(k) is Some, |k: PrefKey| self.slot(k)->Some_0)
    }
}

impl Preferences {
    /// The table as read from the store: each argument is the stored value
    /// of its key, or `None` where the store has none.
    pub fn new(run_activated: Option<bool>, toggle_with_left_click: Option<bool>) -> (r: Preferences)
        ensures
            lookup(r@, PrefKey::RunActivated) == match run_activated {
                Some(v) => Ok(v),
                None => Err(PrefError::Missing),
            },
            lookup(r@, PrefKey::ToggleWithLeftClick) == match toggle_with_left_click {
                Some(v) => Ok(v),
                None => Err(PrefError::Missing),
            },
    {
        Preferences { run_activated, toggle_with_left_click }
    }

    /// Gives each key without a value its default. Returns the keys whose
    /// defaults are to be committed to the store.
    pub fn init(&mut self) -> (r: Vec<PrefKey>)
        ensures
            final(self)@ == initialized(old(self)@),
            r@ == missing_keys(old(self)@),
    {
        let mut written: Vec<PrefKey> = Vec::new();
        if self.run_activated.is_none() {
            self.run_activated = Some(false);
            written.push(PrefKey::RunActivated);
        }
        if self.toggle_with_left_click.is_none() {
            self.toggle_with_left_click = Some(true);
            written.push(PrefKey::ToggleWithLeftClick);
        }
        assert(final(self)@ =~= initialized(old(self)@));
        assert(written@ =~= missing_keys(old(self)@));
        written
    }

    /// Records a committed write of `value` under `key`.
    pub fn save_preference(&mut self, key: PrefKey, value: bool)
        ensures
            final(self)@ == old(self)@.insert(key, value),
    {
        match key {
            PrefKey::RunActivated => self.run_activated = Some(value),
            PrefKey::ToggleWithLeftClick => self.toggle_with_left_click = Some(value),
        }
        assert(final(self)@ =~= old(self)@.insert(key, value));
    }

    /// The committed value of `key`; fails where the key has none.
    pub fn load_preference(&self, key: PrefKey) -> (r: Result<bool, PrefError>)
        ensures
            r == lookup(self@, key),
    {
        let slot = match key {
            PrefKey::RunActivated => self.run_activated,
            PrefKey::ToggleWithLeftClick => self.toggle_with_left_click,
        };
        match slot {
            Some(v) => Ok(v),
            None => Err(PrefError::Missing),
        }
    }

    /// Flips the value of `key` and returns the new value, to be committed;
    /// a key without a value is left alone and `None` returned.
    pub fn toggle_preference(&mut self, key: PrefKey) -> (r: Option<bool>)
        ensures
            final(self)@ == toggled(old(self)@, key),
            r == if old(self)@.contains_key(key) {
                Some(!old(self)@[key])
            } else {
                None
            },
    {
        match self.load_preference(key) {
            Ok(v) => {
                self.save_preference(key, !v);
                Some(!v)
            },
            Err(_) => None,
        }
    }
}

/// A read after a write of `value` under `key` gives `value`.
pub proof fn lemma_save_then_load(m: Map<PrefKey, bool>, key: PrefKey, value: bool)
    ensures
        lookup(m.insert(key, value), key) == Ok::<bool, PrefError>(value),
{
}

/// Toggling a key twice leaves the table as it was.
pub proof fn lemma_toggle_twice(m: Map<PrefKey, bool>, key: PrefKey)
    ensures
        toggled(toggled(m, key), key) == m,
{
    if m.contains_key(key) {
        assert(toggled(toggled(m, key), key) =~= m);
    }
}

/// After defaulting, every key has a value.
pub proof fn lemma_init_complete(m: Map<PrefKey, bool>, key: PrefKey)
    ensures
        lookup(initialized(m), key) is Ok,
{
}

/// After defaulting and a series of committed writes, a key reads as the
/// value it was last written, or, where the series never writes it, as the
/// value it had before defaulting, or its default where it had none.
pub proof fn lemma_last_committed(m: Map<PrefKey, bool>, ops: Seq<(PrefKey, bool)>, key: PrefKey)
    ensures
        lookup(saves(initialized(m), ops), key) == Ok::<bool, PrefError>(
            match last_save(ops, key) {
                Some(v) => v,
                None => if m.contains_key(key) {
                    m[key]
                } else {
                    default_of(key)
                },
            },
        ),
    decreases ops.len(),
{
    if ops.len() > 0 {
        lemma_last_committed(m, ops.drop_last(), key);
    }
}

} // verus!
