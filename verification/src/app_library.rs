//! The application library: the defaults shipped with the device, and
//! the map from provided capability to providing application.

use vstd::prelude::*;
use crate::json::str_eq;

verus! {

/// The capabilities an application manifest provides.
#[derive(Clone, Debug)]
pub struct ProvidedCapabilities {
    pub required: Vec<String>,
    pub optional: Vec<String>,
}

/// The capability section of an application manifest.
#[derive(Clone, Debug)]
pub struct ManifestCapabilities {
    pub provided: ProvidedCapabilities,
}

/// An application manifest.
#[derive(Clone, Debug)]
pub struct AppManifest {
    pub name: String,
    pub capabilities: ManifestCapabilities,
}

/// Where an application's manifest comes from.
#[derive(Clone, Debug)]
pub enum AppManifestLoad {
    Remote(String),
    Local(String),
    Embedded(AppManifest),
}

/// The state an application boots into.
#[derive(Clone, Copy, Debug, PartialEq, Eq, Structural)]
pub enum BootState {
    Inactive,
    Foreground,
    Unloaded,
}

/// One entry of the default application library.
#[derive(Clone, Debug)]
pub struct AppLibraryEntry {
    pub app_id: String,
    pub manifest: AppManifestLoad,
    pub boot_state: BootState,
}

/// The default library as it appears in the device manifest.
#[derive(Clone, Debug)]
pub struct DefaultLibrary {
    pub default_library: Vec<AppLibraryEntry>,
}

/// The provider pairs one library entry contributes: every provided
/// capability of an embedded manifest, required before optional, mapped
/// to the entry's application.
pub open spec fn spec_entry_providers(app: AppLibraryEntry) -> Seq<(String, String)> {
    match app.manifest {
        AppManifestLoad::Embedded(m) =>
            m.capabilities.provided.required@.map_values(|c: String| (c, app.app_id))
                + m.capabilities.provided.optional@.map_values(|c: String| (c, app.app_id)),
        _ => Seq::empty(),
    }
}

/// The provider map of a library: later entries win on conflicts.
pub open spec fn spec_provider_map(apps: Seq<AppLibraryEntry>) -> Seq<(String, String)>
    decreases apps,
{
    if apps.len() == 0 {
        Seq::empty()
    } else {
        spec_provider_map(apps.drop_last()) + spec_entry_providers(apps.last())
    }
}

/// The provider a capability maps to: the most recent pair wins.
pub open spec fn spec_provider_lookup(m: Seq<(String, String)>, capability: Seq<char>)
    -> Option<Seq<char>>
    decreases m,
{
    if m.len() == 0 {
        None
    } else if m.last().0@ == capability {
        Some(m.last().1@)
    } else {
        spec_provider_lookup(m.drop_last(), capability)
    }
}

/// The first library entry booting in the foreground.
pub open spec fn spec_first_foreground(apps: Seq<AppLibraryEntry>) -> Option<AppLibraryEntry>
    decreases apps,
{
    if apps.len() == 0 {
        None
    } else if apps.first().boot_state == BootState::Foreground {
        Some(apps.first())
    } else {
        spec_first_foreground(apps.drop_first())
    }
}

/// The first library entry under an application id.
pub open spec fn spec_find_app(apps: Seq<AppLibraryEntry>, app_id: Seq<char>)
    -> Option<AppLibraryEntry>
    decreases apps,
{
    if apps.len() == 0 {
        None
    } else if apps.first().app_id@ == app_id {
        Some(apps.first())
    } else {
        spec_find_app(apps.drop_first(), app_id)
    }
}

/// The default library and its derived provider map.
#[derive(Debug)]
pub struct AppLibraryState {
    default_apps: Vec<AppLibraryEntry>,
    providers: Vec<(String, String)>,
}

/// Pure queries over the application library.
#[derive(Debug)]
pub struct AppLibrary;

impl AppLibraryState {
    /// The library entries.
    pub closed spec fn apps_view(&self) -> Seq<AppLibraryEntry> {
        self.default_apps@
    }

    /// The derived provider map.
    pub closed spec fn providers_view(&self) -> Seq<(String, String)> {
        self.providers@
    }

    /// Builds the library state, deriving the provider map from the
    /// embedded manifests.
    pub fn new(default_apps: Vec<AppLibraryEntry>) -> (r: AppLibraryState)
        ensures
            r.apps_view() == default_apps@,
            r.providers_view() == spec_provider_map(default_apps@),
    {
        let providers = AppLibrary::generate_provider_map(&default_apps);
        AppLibraryState { default_apps, providers }
    }

    /// Every application of the library.
    pub fn get_all_apps(&self) -> (r: &Vec<AppLibraryEntry>)
        ensures
            r@ == self.apps_view(),
    {
        &self.default_apps
    }

    /// The application booting in the foreground, if one does.
    pub fn get_default_app(&self) -> (r: Option<&AppLibraryEntry>)
        ensures
            match r {
                Some(a) => spec_first_foreground(self.apps_view()) == Some(*a),
                None => spec_first_foreground(self.apps_view()) is None,
            },
    {
        let mut i: usize = 0;
        proof {
            assert(self.default_apps@.skip(0) =~= self.default_apps@);
        }
        while i < self.default_apps.len()
            invariant
                0 <= i <= self.default_apps@.len(),
                spec_first_foreground(self.default_apps@)
                    == spec_first_foreground(self.default_apps@.skip(i as int)),
            decreases self.default_apps@.len() - i,
        {
            proof {
                assert(self.default_apps@.skip(i as int).first() == self.default_apps@[i as int]);
                assert(self.default_apps@.skip(i as int).drop_first()
                    =~= self.default_apps@.skip(i as int + 1));
            }
            let entry = &self.default_apps[i];
            if entry.boot_state == BootState::Foreground {
                return Some(entry);
            }
            i += 1;
        }
        None
    }
}

impl AppLibrary {
    /// The application providing a capability, if any.
    pub fn get_provider(state: &AppLibraryState, capability: String) -> (r: Option<String>)
        ensures
            match r {
                Some(p) => spec_provider_lookup(state.providers_view(), capability@) == Some(p@),
                None => spec_provider_lookup(state.providers_view(), capability@) is None,
            },
    {
        let mut j: usize = state.providers.len();
        proof {
            assert(state.providers@.take(j as int) =~= state.providers@);
        }
        while j > 0
            invariant
                0 <= j <= state.providers@.len(),
                spec_provider_lookup(state.providers@, capability@)
                    == spec_provider_lookup(state.providers@.take(j as int), capability@),
            decreases j,
        {
            j = j - 1;
            proof {
                assert(state.providers@.take(j as int + 1).drop_last()
                    =~= state.providers@.take(j as int));
                assert(state.providers@.take(j as int + 1).last() == state.providers@[j as int]);
            }
            let entry = &state.providers[j];
            if str_eq(entry.0.as_str(), capability.as_str()) {
                return Some(entry.1.clone());
            }
        }
        None
    }

    /// The embedded manifest of an application; remote and local
    /// manifest sources are not served.
    pub fn get_manifest<'a>(state: &'a AppLibraryState, app_id: &str)
        -> (r: Option<&'a AppManifest>)
        ensures
            match spec_find_app(state.apps_view(), app_id@) {
                Some(entry) => match entry.manifest {
                    AppManifestLoad::Embedded(m) => r matches Some(found) && *found == m,
                    _ => r is None,
                },
                None => r is None,
            },
    {
        let mut i: usize = 0;
        proof {
            assert(state.default_apps@.skip(0) =~= state.default_apps@);
        }
        while i < state.default_apps.len()
            invariant
                0 <= i <= state.default_apps@.len(),
                spec_find_app(state.default_apps@, app_id@)
                    == spec_find_app(state.default_apps@.skip(i as int), app_id@),
            decreases state.default_apps@.len() - i,
        {
            proof {
                assert(state.default_apps@.skip(i as int).first()
                    == state.default_apps@[i as int]);
                assert(state.default_apps@.skip(i as int).drop_first()
                    =~= state.default_apps@.skip(i as int + 1));
            }
            let entry = &state.default_apps[i];
            if str_eq(entry.app_id.as_str(), app_id) {
                match &entry.manifest {
                    AppManifestLoad::Embedded(m) => {
                        return Some(m);
                    },
                    _ => {
                        return None;
                    },
                }
            }
            i += 1;
        }
        None
    }

    /// Derives the provider map: every capability an embedded manifest
    /// provides points at its application, later entries winning.
    pub fn generate_provider_map(apps: &Vec<AppLibraryEntry>) -> (r: Vec<(String, String)>)
        ensures
            r@ == spec_provider_map(apps@),
    {
        let mut r: Vec<(String, String)> = Vec::new();
        let mut i: usize = 0;
        proof {
            assert(apps@.take(0) =~= Seq::<AppLibraryEntry>::empty());
        }
        while i < apps.len()
            invariant
                0 <= i <= apps@.len(),
                r@ == spec_provider_map(apps@.take(i as int)),
            decreases apps@.len() - i,
        {
            proof {
                assert(apps@.take(i as int + 1).drop_last() =~= apps@.take(i as int));
                assert(apps@.take(i as int + 1).last() == apps@[i as int]);
            }
            let entry = &apps[i];
            match &entry.manifest {
                AppManifestLoad::Embedded(m) => {
                    push_capability_pairs(&mut r, &m.capabilities.provided.required, &entry.app_id);
                    push_capability_pairs(&mut r, &m.capabilities.provided.optional, &entry.app_id);
                    proof {
                        assert(r@ =~= spec_provider_map(apps@.take(i as int + 1)));
                    }
                },
                _ => {
                    proof {
                        assert(r@ =~= spec_provider_map(apps@.take(i as int + 1)));
                    }
                },
            }
            i += 1;
        }
        proof {
            assert(apps@.take(apps@.len() as int) =~= apps@);
        }
        r
    }
}

fn push_capability_pairs(r: &mut Vec<(String, String)>, caps: &Vec<String>, app_id: &String)
    ensures
        final(r)@ == old(r)@ + caps@.map_values(|c: String| (c, *app_id)),
{
    let mut k: usize = 0;
    proof {
        assert(r@ =~= old(r)@ + caps@.take(0).map_values(|c: String| (c, *app_id)));
    }
    while k < caps.len()
        invariant
            0 <= k <= caps@.len(),
            r@ == old(r)@ + caps@.take(k as int).map_values(|c: String| (c, *app_id)),
        decreases caps@.len() - k,
    {
        r.push((caps[k].clone(), app_id.clone()));
        proof {
            assert(r@ =~= old(r)@ + caps@.take(k as int + 1).map_values(|c: String| (c, *app_id)));
        }
        k += 1;
    }
    proof {
        assert(caps@.take(caps@.len() as int) =~= caps@);
    }
}

} // verus!
