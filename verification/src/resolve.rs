//! Image resolution: mapping a target descriptor to a concrete image
//! reference. Resolution order, highest priority first: an explicit image
//! reference supplied by the caller; an OS alias requested by the caller,
//! looked up in the alias table; the `env` hint taken from the playbook,
//! looked up in the alias table. When an alias is not in the table and no
//! explicit image was supplied, resolution fails with an unknown-OS
//! error. When neither a descriptor nor a hint was given, the caller must
//! fall back to its own (interactive) selection. Pure, no side effects.

use vstd::prelude::*;

use crate::model::TargetDescriptor;
use crate::model::TargetDescriptorModel;
use crate::text::str_eq;

verus! {

/// One row of the alias table: an OS alias and the image reference it
/// stands for.
#[derive(Debug, Clone, PartialEq, Eq)]
pub struct AliasEntry {
    pub alias: String,
    pub image: String,
}

pub struct AliasEntryModel {
    pub alias: Seq<char>,
    pub image: Seq<char>,
}

impl View for AliasEntry {
    type V = AliasEntryModel;

    open spec fn view(&self) -> AliasEntryModel {
        AliasEntryModel { alias: self.alias@, image: self.image@ }
    }
}

impl DeepView for AliasEntry {
    type V = AliasEntryModel;

    open spec fn deep_view(&self) -> AliasEntryModel {
        self@
    }
}

/// The image the first table entry for `alias` names, if any.
pub open spec fn spec_lookup(table: Seq<AliasEntryModel>, alias: Seq<char>) -> Option<Seq<char>>
    decreases table.len(),
{
    if table.len() == 0 {
        None
    } else if table[0].alias == alias {
        Some(table[0].image)
    } else {
        spec_lookup(table.skip(1), alias)
    }
}

/// Looks an alias up in the table; the first matching entry wins.
pub fn lookup_alias(table: &Vec<AliasEntry>, alias: &String) -> (r: Option<String>)
    ensures
        r.deep_view() == spec_lookup(table.deep_view(), alias@),
{
    let ghost tv = table.deep_view();
    proof {
        assert(tv.skip(0) =~= tv);
    }
    let mut i: usize = 0;
    while i < table.len()
        invariant
            i <= table.len(),
            tv == table.deep_view(),
            spec_lookup(tv.skip(i as int), alias@) == spec_lookup(tv, alias@),
        decreases table.len() - i,
    {
        assert(tv.skip(i as int)[0] == tv[i as int]);
        if table[i].alias == *alias {
            return Some(table[i].image.clone());
        }
        assert(tv.skip(i as int).skip(1) =~= tv.skip(i as int + 1));
        i = i + 1;
    }
    assert(tv.skip(i as int).len() == 0);
    None
}

/// The built-in alias table: `Linux`, `macOS` and `Windows` with their
/// documented image references.
pub open spec fn spec_default_alias_table() -> Seq<AliasEntryModel> {
    seq![
        AliasEntryModel { alias: "Linux"@, image: "ubuntu:latest"@ },
        AliasEntryModel { alias: "macOS"@, image: "sickcodes/docker-osx"@ },
        AliasEntryModel {
            alias: "Windows"@,
            image: "mcr.microsoft.com/windows/servercore:ltsc2019"@,
        },
    ]
}

/// Builds the built-in alias table. Callers may extend or replace it; the
/// resolver takes the table as an argument.
pub fn default_alias_table() -> (r: Vec<AliasEntry>)
    ensures
        r.deep_view() == spec_default_alias_table(),
{
    let mut t: Vec<AliasEntry> = Vec::new();
    t.push(
        AliasEntry {
            alias: String::from_str("Linux"),
            image: String::from_str("ubuntu:latest"),
        },
    );
    t.push(
        AliasEntry {
            alias: String::from_str("macOS"),
            image: String::from_str("sickcodes/docker-osx"),
        },
    );
    t.push(
        AliasEntry {
            alias: String::from_str("Windows"),
            image: String::from_str("mcr.microsoft.com/windows/servercore:ltsc2019"),
        },
    );
    proof {
        assert(t.deep_view() =~= spec_default_alias_table());
    }
    t
}

/// Why resolution produced no image reference.
#[derive(Debug, Clone, PartialEq, Eq)]
pub enum ResolveFailure {
    /// The alias is not in the table and no explicit image was given.
    UnknownOs { alias: String },
    /// Neither a descriptor nor a playbook hint was given; selection is
    /// left to the caller.
    NoTargetGiven,
}

pub enum ResolveFailureModel {
    UnknownOs { alias: Seq<char> },
    NoTargetGiven,
}

impl View for ResolveFailure {
    type V = ResolveFailureModel;

    open spec fn view(&self) -> ResolveFailureModel {
        match self {
            ResolveFailure::UnknownOs { alias } => ResolveFailureModel::UnknownOs {
                alias: alias@,
            },
            ResolveFailure::NoTargetGiven => ResolveFailureModel::NoTargetGiven,
        }
    }
}

/// What resolution returns: the explicit image when one was supplied,
/// regardless of any alias or hint; otherwise the table's entry for the
/// requested alias; otherwise the table's entry for the playbook's `env`
/// hint; an alias missing from the table is an unknown OS.
pub open spec fn spec_resolve(
    desc: Option<TargetDescriptorModel>,
    hint: Option<Seq<char>>,
    table: Seq<AliasEntryModel>,
) -> Result<Seq<char>, ResolveFailureModel> {
    match desc {
        Some(TargetDescriptorModel::Image(img)) => Ok(img),
        Some(TargetDescriptorModel::OsAlias(alias)) => match spec_lookup(table, alias) {
            Some(img) => Ok(img),
            None => Err(ResolveFailureModel::UnknownOs { alias }),
        },
        None => match hint {
            Some(alias) => match spec_lookup(table, alias) {
                Some(img) => Ok(img),
                None => Err(ResolveFailureModel::UnknownOs { alias }),
            },
            None => Err(ResolveFailureModel::NoTargetGiven),
        },
    }
}

/// Resolves a target descriptor to a concrete image reference, with the
/// playbook's `env` hint as fallback when the caller gave no descriptor.
pub fn resolve(
    desc: Option<&TargetDescriptor>,
    hint: Option<&String>,
    table: &Vec<AliasEntry>,
) -> (r: Result<String, ResolveFailure>)
    ensures
        ({
            let s = spec_resolve(desc.deep_view(), hint.deep_view(), table.deep_view());
            match r {
                Ok(img) => s == Ok::<Seq<char>, ResolveFailureModel>(img@),
                Err(f) => s == Err::<Seq<char>, ResolveFailureModel>(f@),
            }
        }),
{
    match desc {
        Some(TargetDescriptor::Image(img)) => Ok(img.clone()),
        Some(TargetDescriptor::OsAlias(alias)) => match lookup_alias(table, alias) {
            Some(img) => Ok(img),
            None => Err(ResolveFailure::UnknownOs { alias: alias.clone() }),
        },
        None => match hint {
            Some(alias) => match lookup_alias(table, alias) {
                Some(img) => Ok(img),
                None => Err(ResolveFailure::UnknownOs { alias: alias.clone() }),
            },
            None => Err(ResolveFailure::NoTargetGiven),
        },
    }
}

/// The lookup table of installed playbook packages, reduced to what the
/// orchestrator reads of it: the package names.
#[derive(Debug, Clone)]
pub struct PackagesManager {
    pub packages: Vec<String>,
}

/// The fixed OS-to-image defaults this manager answers with: the three
/// canonical aliases map to their documented images, and anything else
/// falls back to `ubuntu:latest`.
pub open spec fn spec_default_image_for(os: Seq<char>) -> Seq<char> {
    if os == "Linux"@ {
        "ubuntu:latest"@
    } else if os == "macOS"@ {
        "sickcodes/docker-osx"@
    } else if os == "Windows"@ {
        "mcr.microsoft.com/windows/servercore:ltsc2019"@
    } else {
        "ubuntu:latest"@
    }
}

impl PackagesManager {
    /// The default image reference for an OS name; unknown names fall
    /// back to the Linux default.
    pub fn get_docker_image_for_os(&self, os_name: &str) -> (r: String)
        ensures
            r@ == spec_default_image_for(os_name@),
    {
        if str_eq(os_name, "Linux") {
            String::from_str("ubuntu:latest")
        } else if str_eq(os_name, "macOS") {
            String::from_str("sickcodes/docker-osx")
        } else if str_eq(os_name, "Windows") {
            String::from_str("mcr.microsoft.com/windows/servercore:ltsc2019")
        } else {
            String::from_str("ubuntu:latest")
        }
    }
}

/// The names of all installed playbooks, in the manager's order.
pub fn get_available_playbooks(packages_manager: &PackagesManager) -> (r: Vec<String>)
    ensures
        r.deep_view() == packages_manager.packages.deep_view(),
{
    let names = packages_manager.packages.clone();
    proof {
        assert forall|i: int| 0 <= i < names@.len() implies names@[i]
            == packages_manager.packages@[i] by {
            assert(cloned::<String>(packages_manager.packages[i], names[i]));
        }
        assert(names@ =~= packages_manager.packages@);
    }
    names
}

} // verus!
