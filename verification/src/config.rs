//! Selection of enabled feature modules from the configuration document.
//!
//! The configuration lists modules by name, each optionally carrying an
//! `enabled` flag; a module without a usable flag counts as enabled. The
//! document itself is read and parsed once at startup by the unverified
//! shell, which hands the raw entries here; this module decides, with an
//! exact contract, which module names come out enabled and in what order.

use vstd::prelude::*;

verus! {

/// One raw entry of the configuration's module listing: the key, if it
/// was a text name at all, and its `enabled` flag, if it had a usable one.
#[derive(Clone, Debug)]
pub struct ModuleEntry {
    pub name: Option<String>,
    pub enabled: Option<bool>,
}

/// Why no module list could be produced.
#[derive(Clone, Debug, PartialEq, Eq)]
pub enum ConfigError {
    /// No configuration document could be read, with the failure text.
    ReadFailed(String),
    /// The document could not be parsed, with the failure text.
    ParseFailed(String),
    /// The document defines no module listing.
    NoModules,
    /// A module key is not a text name.
    NameNotString,
}

/// The failure text of a configuration error.
pub open spec fn config_error_text(e: ConfigError) -> Seq<char> {
    match e {
        ConfigError::ReadFailed(detail) => "failed to read config: "@ + detail@,
        ConfigError::ParseFailed(detail) => "failed to parse config: "@ + detail@,
        ConfigError::NoModules => "config does not define modules"@,
        ConfigError::NameNotString => "module name must be a string"@,
    }
}

impl ConfigError {
    /// Render the failure as a message.
    pub fn message(&self) -> (m: String)
        ensures
            m@ == config_error_text(*self),
    {
        match self {
            ConfigError::ReadFailed(detail) => {
                let mut m = String::from_str("failed to read config: ");
                m.append(detail.as_str());
                m
            },
            ConfigError::ParseFailed(detail) => {
                let mut m = String::from_str("failed to parse config: ");
                m.append(detail.as_str());
                m
            },
            ConfigError::NoModules => String::from_str("config does not define modules"),
            ConfigError::NameNotString => String::from_str("module name must be a string"),
        }
    }
}

/// A module counts as enabled unless its flag says `false`.
pub open spec fn entry_enabled(e: ModuleEntry) -> bool {
    e.enabled != Some(false)
}

/// Every entry's key is a text name.
pub open spec fn all_names_present(entries: Seq<ModuleEntry>) -> bool {
    forall|i: int| 0 <= i < entries.len() ==> (#[trigger] entries[i]).name is Some
}

/// The names of the enabled modules, in the listing's order.
pub open spec fn enabled_names(entries: Seq<ModuleEntry>) -> Seq<Seq<char>>
    decreases entries.len(),
{
    if entries.len() == 0 {
        Seq::empty()
    } else {
        let rest = enabled_names(entries.drop_first());
        if entry_enabled(entries[0]) {
            seq![entries[0].name->0@] + rest
        } else {
            rest
        }
    }
}

/// The strings carry exactly these texts, in this order.
pub open spec fn strings_match(names: Seq<String>, expected: Seq<Seq<char>>) -> bool {
    &&& names.len() == expected.len()
    &&& forall|i: int| 0 <= i < names.len() ==> (#[trigger] names[i])@ == expected[i]
}

proof fn lemma_all_names_unfold(entries: Seq<ModuleEntry>)
    requires
        entries.len() > 0,
    ensures
        all_names_present(entries) <==> (entries[0].name is Some && all_names_present(
            entries.drop_first(),
        )),
{
    if entries[0].name is Some && all_names_present(entries.drop_first()) {
        assert forall|j: int| 0 <= j < entries.len() implies (#[trigger] entries[j]).name
            is Some by {
            if j > 0 {
                assert(entries.drop_first()[j - 1] == entries[j]);
            }
        }
    }
    if all_names_present(entries) {
        assert forall|j: int|
            0 <= j < entries.drop_first().len() implies (#[trigger] entries.drop_first()[j]).name
            is Some by {
            assert(entries.drop_first()[j] == entries[j + 1]);
        }
    }
}

/// The enabled module names of the configuration: the whole listing
/// filtered by flag, in order; an absent listing or a non-text key is
/// refused with the matching error.
pub fn enabled_modules(modules: &Option<Vec<ModuleEntry>>) -> (r: Result<Vec<String>, ConfigError>)
    ensures
        modules is None <==> r == Err::<Vec<String>, ConfigError>(ConfigError::NoModules),
        modules matches Some(entries) ==> {
            &&& (r is Err <==> !all_names_present(entries@))
            &&& (r is Err ==> r == Err::<Vec<String>, ConfigError>(ConfigError::NameNotString))
            &&& (r matches Ok(names) ==> strings_match(names@, enabled_names(entries@)))
        },
{
    match modules {
        None => Err(ConfigError::NoModules),
        Some(entries) => {
            let r = enabled_from(entries, 0);
            proof {
                assert(entries@.skip(0) =~= entries@);
            }
            r
        },
    }
}

fn enabled_from(entries: &Vec<ModuleEntry>, i: usize) -> (r: Result<Vec<String>, ConfigError>)
    requires
        i <= entries.len(),
    ensures
        r is Err <==> !all_names_present(entries@.skip(i as int)),
        r is Err ==> r == Err::<Vec<String>, ConfigError>(ConfigError::NameNotString),
        r matches Ok(names) ==> strings_match(names@, enabled_names(entries@.skip(i as int))),
    decreases entries.len() - i,
{
    if i == entries.len() {
        proof {
            assert(entries@.skip(i as int) =~= Seq::<ModuleEntry>::empty());
        }
        Ok(Vec::new())
    } else {
        proof {
            assert(entries@.skip(i as int).drop_first() =~= entries@.skip(i as int + 1));
            assert(entries@.skip(i as int)[0] == entries@[i as int]);
            lemma_all_names_unfold(entries@.skip(i as int));
        }
        let name = match &entries[i].name {
            Some(n) => n.clone(),
            None => {
                return Err(ConfigError::NameNotString);
            },
        };
        let included = entries[i].enabled.unwrap_or(true);
        match enabled_from(entries, i + 1) {
            Ok(mut names) => {
                if included {
                    names.insert(0, name);
                }
                Ok(names)
            },
            Err(e) => Err(e),
        }
    }
}

} // verus!
