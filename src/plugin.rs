use vstd::prelude::*;

verus! {

/// The ABI version that a theme object must report to be registered.
pub const THEME_TRAIT_VERSION: u32 = 1;

/// The ABI version that a generic plugin object must report to be registered.
pub const PLUGIN_TRAIT_VERSION: u32 = 0;

/// What a module declares itself to be in its metadata.
///
/// Every kind other than `Theme` is handled as a generic plugin.
#[derive(Debug, Clone, Copy, PartialEq, Eq, Structural)]
pub enum PluginType {
    Theme,
    Plugin,
}

/// Self-description that every module hands out through its metadata entry point.
pub trait PluginMetadata: Send + Sync {
    /// The ABI version the module was built against.
    fn plugin_version(&self) -> u32;

    /// Display name.
    fn name(&self) -> &'static str;

    /// Free-form description, such as the author.
    fn description(&self) -> &'static str;

    /// Display version of the module itself.
    fn version(&self) -> &'static str;

    /// The kind of object that the module's object entry point builds.
    fn plugin_type(&self) -> PluginType;
}

/// A generic plugin object: for now it offers its metadata only.
pub trait Plugin: PluginMetadata {
}

/// The ABI version expected of an object of the given kind.
pub open spec fn spec_expected_version(kind: PluginType) -> u32 {
    match kind {
        PluginType::Theme => THEME_TRAIT_VERSION,
        PluginType::Plugin => PLUGIN_TRAIT_VERSION,
    }
}

/// The ABI version that the host expects of an object of kind `kind`.
pub fn expected_version(kind: PluginType) -> (r: u32)
    ensures
        r == spec_expected_version(kind),
{
    match kind {
        PluginType::Theme => THEME_TRAIT_VERSION,
        PluginType::Plugin => PLUGIN_TRAIT_VERSION,
    }
}

/// Why one module was not registered.
#[derive(Debug, Clone, Copy, PartialEq, Eq, Structural)]
pub enum PluginError {
    /// The OS refused to map the file as a module.
    Load,
    /// An entry point that every module must export is missing.
    InvalidModule,
    /// The object reports an ABI version other than the one expected for its kind.
    IncompatibleVersion(PluginType),
}

impl PluginError {
    /// A one-line description of the failure.
    pub fn message(&self) -> (r: &'static str)
        ensures
            *self == PluginError::Load ==> r@ == "Unable to load the library"@,
            *self == PluginError::InvalidModule ==> r@ == "Not a valid plugin library"@,
            *self == PluginError::IncompatibleVersion(PluginType::Theme)
                ==> r@ == "Theme version is not compatible."@,
            *self == PluginError::IncompatibleVersion(PluginType::Plugin)
                ==> r@ == "Plugin version is not compatible."@,
    {
        match self {
            PluginError::Load => "Unable to load the library",
            PluginError::InvalidModule => "Not a valid plugin library",
            PluginError::IncompatibleVersion(PluginType::Theme) => "Theme version is not compatible.",
            PluginError::IncompatibleVersion(PluginType::Plugin) => "Plugin version is not compatible.",
        }
    }
}

/// What the object entry point of an opened module yielded.
pub enum Construction<T, P> {
    /// The metadata entry point is missing.
    NoMetadata,
    /// The metadata declared this kind, but the object entry point is missing.
    NoObject(PluginType),
    /// A theme object, with the identity and the ABI version it reports.
    Theme { identity: String, abi_version: u32, theme: T },
    /// A generic plugin object, with the ABI version it reports.
    Plugin { abi_version: u32, plugin: P },
}

/// What came of trying one file as a module.
pub enum Probe<H, T, P> {
    /// The OS refused to open the file as a module.
    Unloadable,
    /// The file was mapped: its handle, and what its entry points yielded.
    Opened(H, Construction<T, P>),
}

/// The result that loading `probe` reports.
pub open spec fn probe_outcome<H, T, P>(probe: Probe<H, T, P>) -> Result<(), PluginError> {
    match probe {
        Probe::Unloadable => Err(PluginError::Load),
        Probe::Opened(_, c) => match c {
            Construction::NoMetadata => Err(PluginError::InvalidModule),
            Construction::NoObject(_) => Err(PluginError::InvalidModule),
            Construction::Theme { abi_version, .. } =>
                if abi_version == THEME_TRAIT_VERSION {
                    Ok(())
                } else {
                    Err(PluginError::IncompatibleVersion(PluginType::Theme))
                },
            Construction::Plugin { abi_version, .. } =>
                if abi_version == PLUGIN_TRAIT_VERSION {
                    Ok(())
                } else {
                    Err(PluginError::IncompatibleVersion(PluginType::Plugin))
                },
        },
    }
}

/// The contents of a registry: themes by identity, generic plugins in
/// order of loading, and every module handle ever opened.
pub struct RegistryView<H, T, P> {
    pub themes: Map<Seq<char>, T>,
    pub plugins: Seq<P>,
    pub libraries: Seq<H>,
}

/// The registry after loading `probe` into `r`.
pub open spec fn loaded<H, T, P>(r: RegistryView<H, T, P>, probe: Probe<H, T, P>) -> RegistryView<H, T, P> {
    match probe {
        Probe::Unloadable => r,
        Probe::Opened(lib, c) => {
            let libraries = r.libraries.push(lib);
            match c {
                Construction::Theme { identity, abi_version, theme } =>
                    if abi_version == THEME_TRAIT_VERSION {
                        RegistryView { themes: r.themes.insert(identity@, theme), plugins: r.plugins, libraries }
                    } else {
                        RegistryView { themes: r.themes, plugins: r.plugins, libraries }
                    },
                Construction::Plugin { abi_version, plugin } =>
                    if abi_version == PLUGIN_TRAIT_VERSION {
                        RegistryView { themes: r.themes, plugins: r.plugins.push(plugin), libraries }
                    } else {
                        RegistryView { themes: r.themes, plugins: r.plugins, libraries }
                    },
                _ => RegistryView { themes: r.themes, plugins: r.plugins, libraries },
            }
        },
    }
}

/// The registry after loading each of `probes` into `r`, first to last.
pub open spec fn loaded_all<H, T, P>(r: RegistryView<H, T, P>, probes: Seq<Probe<H, T, P>>) -> RegistryView<H, T, P>
    decreases probes.len(),
{
    if probes.len() == 0 {
        r
    } else {
        loaded(loaded_all(r, probes.drop_last()), probes.last())
    }
}

/// The registry of loaded modules: the theme objects by identity, the
/// generic plugin objects, and the handles of all modules opened, which are
/// kept for as long as the registry lives.
pub struct PluginManager<H, T, P> {
    plugins: Vec<P>,
    themes: Vec<(String, T)>,
    loaded_libraries: Vec<H>,
    theme_map: Ghost<Map<Seq<char>, T>>,
}

impl<H, T, P> View for PluginManager<H, T, P> {
    type V = RegistryView<H, T, P>;

    closed spec fn view(&self) -> RegistryView<H, T, P> {
        RegistryView { themes: self.theme_map@, plugins: self.plugins@, libraries: self.loaded_libraries@ }
    }
}

impl<H, T, P> PluginManager<H, T, P> {
    /// The theme entries have distinct identities and hold exactly the theme map.
    pub closed spec fn wf(&self) -> bool {
        &&& forall|i: int, j: int|
            0 <= i < j < self.themes@.len() ==> self.themes@[i].0@ != self.themes@[j].0@
        &&& forall|i: int| 0 <= i < self.themes@.len() ==> {
            &&& #[trigger] self.theme_map@.contains_key(self.themes@[i].0@)
            &&& self.theme_map@[self.themes@[i].0@] == self.themes@[i].1
        }
        &&& forall|k: Seq<char>| #[trigger] self.theme_map@.contains_key(k)
            ==> exists|i: int| 0 <= i < self.themes@.len() && self.themes@[i].0@ == k
        &&& self.theme_map@.dom().finite()
        &&& self.theme_map@.dom().len() == self.themes@.len()
    }

    /// An empty registry.
    pub fn new() -> (r: Self)
        ensures
            r.wf(),
            r@.themes == Map::<Seq<char>, T>::empty(),
            r@.plugins == Seq::<P>::empty(),
            r@.libraries == Seq::<H>::empty(),
    {
        Self {
            plugins: Vec::new(),
            themes: Vec::new(),
            loaded_libraries: Vec::new(),
            theme_map: Ghost(Map::empty()),
        }
    }

    /// The position of the theme entry named `name`, if there is one.
    fn position(&self, name: &String) -> (r: Option<usize>)
        requires
            self.wf(),
        ensures
            r is None <==> !self@.themes.contains_key(name@),
            r matches Some(i) ==> i < self.themes@.len() && self.themes@[i as int].0@ == name@,
    {
        let mut i: usize = 0;
        while i < self.themes.len()
            invariant
                self.wf(),
                i <= self.themes@.len(),
                forall|j: int| 0 <= j < i ==> self.themes@[j].0@ != name@,
            decreases self.themes@.len() - i,
        {
            if self.themes[i].0 == *name {
                assert(self.theme_map@.contains_key(self.themes@[i as int].0@));
                return Some(i);
            }
            i += 1;
        }
        proof {
            if self@.themes.contains_key(name@) {
                let j = choose|j: int| 0 <= j < self.themes@.len() && self.themes@[j].0@ == name@;
                assert(self.themes@[j].0@ == name@);
            }
        }
        None
    }

    /// The theme registered under `name`, if any.
    pub fn get_theme(&self, name: &String) -> (r: Option<&T>)
        requires
            self.wf(),
        ensures
            r is None <==> !self@.themes.contains_key(name@),
            r matches Some(t) ==> *t == self@.themes[name@],
    {
        match self.position(name) {
            Some(i) => Some(&self.themes[i].1),
            None => None,
        }
    }

    /// Registers `theme` under `identity`, replacing any theme registered
    /// under the same identity before.
    pub fn register_theme(&mut self, identity: String, theme: T)
        requires
            old(self).wf(),
        ensures
            final(self).wf(),
            final(self)@.themes == old(self)@.themes.insert(identity@, theme),
            final(self)@.plugins == old(self)@.plugins,
            final(self)@.libraries == old(self)@.libraries,
    {
        let ghost key = identity@;
        let ghost old_map = self.theme_map@;
        match self.position(&identity) {
            Some(i) => {
                proof {
                    assert(old_map.dom().insert(key) =~= old_map.dom());
                }
                self.themes.set(i, (identity, theme));
                self.theme_map = Ghost(old_map.insert(key, theme));
                proof {
                    assert forall|k: Seq<char>| #[trigger] self.theme_map@.contains_key(k) implies
                        exists|j: int| 0 <= j < self.themes@.len() && self.themes@[j].0@ == k by {
                        if k != key {
                            let j = choose|j: int| 0 <= j < old(self).themes@.len() && old(self).themes@[j].0@ == k;
                            assert(self.themes@[j].0@ == k);
                        } else {
                            assert(self.themes@[i as int].0@ == k);
                        }
                    }
                    assert forall|j: int| 0 <= j < self.themes@.len() implies {
                        &&& #[trigger] self.theme_map@.contains_key(self.themes@[j].0@)
                        &&& self.theme_map@[self.themes@[j].0@] == self.themes@[j].1
                    } by {
                        if j != i {
                            assert(old(self).theme_map@.contains_key(old(self).themes@[j].0@));
                        }
                    }
                }
            },
            None => {
                self.themes.push((identity, theme));
                self.theme_map = Ghost(old_map.insert(key, theme));
                proof {
                    assert forall|k: Seq<char>| #[trigger] self.theme_map@.contains_key(k) implies
                        exists|j: int| 0 <= j < self.themes@.len() && self.themes@[j].0@ == k by {
                        if k != key {
                            let j = choose|j: int| 0 <= j < old(self).themes@.len() && old(self).themes@[j].0@ == k;
                            assert(self.themes@[j].0@ == k);
                        } else {
                            assert(self.themes@[self.themes@.len() - 1].0@ == k);
                        }
                    }
                    assert forall|j: int| 0 <= j < self.themes@.len() implies {
                        &&& #[trigger] self.theme_map@.contains_key(self.themes@[j].0@)
                        &&& self.theme_map@[self.themes@[j].0@] == self.themes@[j].1
                    } by {
                        if j < self.themes@.len() - 1 {
                            assert(old(self).theme_map@.contains_key(old(self).themes@[j].0@));
                        }
                    }
                    assert forall|a: int, b: int| 0 <= a < b < self.themes@.len() implies
                        self.themes@[a].0@ != self.themes@[b].0@ by {
                        if b == self.themes@.len() - 1 {
                            assert(old(self).theme_map@.contains_key(old(self).themes@[a].0@));
                        }
                    }
                }
            },
        }
    }

    /// Adds `plugin` to the generic plugins.
    pub fn register_plugin(&mut self, plugin: P)
        requires
            old(self).wf(),
        ensures
            final(self).wf(),
            final(self)@.themes == old(self)@.themes,
            final(self)@.plugins == old(self)@.plugins.push(plugin),
            final(self)@.libraries == old(self)@.libraries,
    {
        self.plugins.push(plugin);
        assert(self.themes@ == old(self).themes@);
        assert(self.theme_map@ == old(self).theme_map@);
    }

    /// The number of registered themes.
    pub fn theme_count(&self) -> (r: usize)
        requires
            self.wf(),
        ensures
            r == self@.themes.dom().len(),
    {
        self.themes.len()
    }

    /// The number of registered generic plugins.
    pub fn plugin_count(&self) -> (r: usize)
        ensures
            r == self@.plugins.len(),
    {
        self.plugins.len()
    }

    /// The number of module handles kept.
    pub fn library_count(&self) -> (r: usize)
        ensures
            r == self@.libraries.len(),
    {
        self.loaded_libraries.len()
    }

    /// Keeps the handle of an opened module for as long as the registry lives.
    fn retain_library(&mut self, library: H)
        requires
            old(self).wf(),
        ensures
            final(self).wf(),
            final(self)@.themes == old(self)@.themes,
            final(self)@.plugins == old(self)@.plugins,
            final(self)@.libraries == old(self)@.libraries.push(library),
    {
        self.loaded_libraries.push(library);
        assert(self.themes@ == old(self).themes@);
        assert(self.theme_map@ == old(self).theme_map@);
    }

    /// Loads one module from what its probe yielded.
    ///
    /// The handle of an opened module is kept whatever follows. A theme or a
    /// plugin object is registered only when it reports the ABI version
    /// expected for its kind; a theme replaces one of the same identity.
    pub fn load(&mut self, probe: Probe<H, T, P>) -> (r: Result<(), PluginError>)
        requires
            old(self).wf(),
        ensures
            final(self).wf(),
            r == probe_outcome(probe),
            final(self)@ == loaded(old(self)@, probe),
    {
        match probe {
            Probe::Unloadable => Err(PluginError::Load),
            Probe::Opened(library, construction) => {
                self.retain_library(library);
                match construction {
                    Construction::NoMetadata => Err(PluginError::InvalidModule),
                    Construction::NoObject(_) => Err(PluginError::InvalidModule),
                    Construction::Theme { identity, abi_version, theme } => {
                        if abi_version != expected_version(PluginType::Theme) {
                            Err(PluginError::IncompatibleVersion(PluginType::Theme))
                        } else {
                            self.register_theme(identity, theme);
                            Ok(())
                        }
                    },
                    Construction::Plugin { abi_version, plugin } => {
                        if abi_version != expected_version(PluginType::Plugin) {
                            Err(PluginError::IncompatibleVersion(PluginType::Plugin))
                        } else {
                            self.register_plugin(plugin);
                            Ok(())
                        }
                    },
                }
            },
        }
    }

    /// Loads the modules of `probes` in order. One module's failure does not
    /// stop the others; the result holds each module's outcome, in order.
    pub fn load_all(&mut self, probes: Vec<Probe<H, T, P>>) -> (r: Vec<Result<(), PluginError>>)
        requires
            old(self).wf(),
        ensures
            final(self).wf(),
            final(self)@ == loaded_all(old(self)@, probes@),
            r@.len() == probes@.len(),
            forall|i: int| 0 <= i < probes@.len() ==> r@[i] == probe_outcome(#[trigger] probes@[i]),
    {
        let ghost all = probes@;
        let mut rest = probes;
        let mut outcomes: Vec<Result<(), PluginError>> = Vec::new();
        while rest.len() > 0
            invariant
                self.wf(),
                outcomes@.len() + rest@.len() == all.len(),
                rest@ == all.subrange(outcomes@.len() as int, all.len() as int),
                self@ == loaded_all(old(self)@, all.subrange(0, outcomes@.len() as int)),
                forall|i: int| 0 <= i < outcomes@.len() ==> outcomes@[i] == probe_outcome(#[trigger] all[i]),
            decreases rest@.len(),
        {
            let ghost done = outcomes@.len() as int;
            let probe = rest.remove(0);
            assert(probe == all[done]);
            assert(all.subrange(0, done + 1).drop_last() =~= all.subrange(0, done));
            let outcome = self.load(probe);
            outcomes.push(outcome);
            assert(rest@ =~= all.subrange(outcomes@.len() as int, all.len() as int));
        }
        assert(all.subrange(0, all.len() as int) =~= all);
        outcomes
    }

    /// Loads the modules found in a directory. The call fails, leaving the
    /// registry as it was, only when the directory could not be listed;
    /// otherwise every listed module is loaded as `load_all` does.
    pub fn load_listing<E>(&mut self, listing: Result<Vec<Probe<H, T, P>>, E>) -> (r: Result<Vec<Result<(), PluginError>>, E>)
        requires
            old(self).wf(),
        ensures
            final(self).wf(),
            r is Ok <==> listing is Ok,
            listing matches Err(e) ==> r == Err::<Vec<Result<(), PluginError>>, E>(e) && final(self)@ == old(self)@,
            listing matches Ok(probes) ==> {
                &&& final(self)@ == loaded_all(old(self)@, probes@)
                &&& r matches Ok(outcomes) && outcomes@.len() == probes@.len()
                    && forall|i: int| 0 <= i < probes@.len() ==> outcomes@[i] == probe_outcome(#[trigger] probes@[i])
            },
    {
        match listing {
            Ok(probes) => Ok(self.load_all(probes)),
            Err(e) => Err(e),
        }
    }
}

/// Whether `probe` yields a theme of identity `k` that passes the version check.
pub open spec fn accepted_theme<H, T, P>(probe: Probe<H, T, P>, k: Seq<char>) -> bool {
    match probe {
        Probe::Opened(_, Construction::Theme { identity, abi_version, .. }) =>
            abi_version == THEME_TRAIT_VERSION && identity@ == k,
        _ => false,
    }
}

/// The number of `probes` whose module gets registered.
pub open spec fn accepted_count<H, T, P>(probes: Seq<Probe<H, T, P>>) -> nat
    decreases probes.len(),
{
    if probes.len() == 0 {
        0
    } else {
        accepted_count(probes.drop_last()) + if probe_outcome(probes.last()) is Ok { 1nat } else { 0nat }
    }
}

/// The identities of the themes after loading `probes`: those there before,
/// and those of the accepted themes among `probes`.
proof fn lemma_theme_identities<H, T, P>(r: RegistryView<H, T, P>, probes: Seq<Probe<H, T, P>>)
    requires
        r.themes.dom().finite(),
    ensures
        loaded_all(r, probes).themes.dom().finite(),
        forall|k: Seq<char>| #[trigger] loaded_all(r, probes).themes.contains_key(k) <==>
            (r.themes.contains_key(k) || exists|i: int| 0 <= i < probes.len() && accepted_theme(probes[i], k)),
    decreases probes.len(),
{
    if probes.len() > 0 {
        let init = probes.drop_last();
        lemma_theme_identities(r, init);
        assert forall|k: Seq<char>| #[trigger] loaded_all(r, probes).themes.contains_key(k) <==>
            (r.themes.contains_key(k) || exists|i: int| 0 <= i < probes.len() && accepted_theme(probes[i], k)) by {
            if exists|i: int| 0 <= i < probes.len() && accepted_theme(probes[i], k) {
                let i = choose|i: int| 0 <= i < probes.len() && accepted_theme(probes[i], k);
                if i < probes.len() - 1 {
                    assert(init[i] == probes[i]);
                }
            }
            if exists|i: int| 0 <= i < init.len() && accepted_theme(init[i], k) {
                let i = choose|i: int| 0 <= i < init.len() && accepted_theme(init[i], k);
                assert(probes[i] == init[i]);
            }
        }
    }
}

/// Loading modules whose accepted themes all have new, distinct identities
/// adds one registry entry, theme or plugin, for each module that passes
/// metadata extraction and the version check, and none for any other file.
pub proof fn lemma_entries_count_accepted_modules<H, T, P>(r: RegistryView<H, T, P>, probes: Seq<Probe<H, T, P>>)
    requires
        r.themes.dom().finite(),
        forall|i: int, j: int, k: Seq<char>| 0 <= i < j < probes.len()
            && #[trigger] accepted_theme(probes[i], k) ==> !#[trigger] accepted_theme(probes[j], k),
        forall|i: int, k: Seq<char>| 0 <= i < probes.len() && #[trigger] accepted_theme(probes[i], k)
            ==> !r.themes.contains_key(k),
    ensures
        loaded_all(r, probes).themes.dom().len() + loaded_all(r, probes).plugins.len()
            == r.themes.dom().len() + r.plugins.len() + accepted_count(probes),
    decreases probes.len(),
{
    if probes.len() > 0 {
        let init = probes.drop_last();
        let last = probes.last();
        assert forall|i: int, j: int, k: Seq<char>| 0 <= i < j < init.len()
            && #[trigger] accepted_theme(init[i], k) implies !#[trigger] accepted_theme(init[j], k) by {
            assert(init[i] == probes[i] && init[j] == probes[j]);
        }
        assert forall|i: int, k: Seq<char>| 0 <= i < init.len() && #[trigger] accepted_theme(init[i], k)
            implies !r.themes.contains_key(k) by {
            assert(init[i] == probes[i]);
        }
        lemma_entries_count_accepted_modules(r, init);
        lemma_theme_identities(r, init);
        let before = loaded_all(r, init);
        match last {
            Probe::Opened(_, Construction::Theme { identity, abi_version, .. }) => {
                if abi_version == THEME_TRAIT_VERSION {
                    let k = identity@;
                    assert(accepted_theme(probes[probes.len() - 1], k));
                    if before.themes.contains_key(k) {
                        let i = choose|i: int| 0 <= i < init.len() && accepted_theme(init[i], k);
                        assert(init[i] == probes[i]);
                    }
                }
            },
            _ => {},
        }
    }
}

/// When two modules declare the same theme identity, one entry stays under
/// it, and it holds the theme of the module loaded last.
pub proof fn lemma_same_identity_last_wins<H, T, P>(
    r: RegistryView<H, T, P>,
    first_library: H,
    first_identity: String,
    first_theme: T,
    second_library: H,
    second_identity: String,
    second_theme: T,
)
    requires
        first_identity@ == second_identity@,
    ensures
        ({
            let first = Probe::<H, T, P>::Opened(first_library, Construction::Theme {
                identity: first_identity, abi_version: THEME_TRAIT_VERSION, theme: first_theme });
            let second = Probe::<H, T, P>::Opened(second_library, Construction::Theme {
                identity: second_identity, abi_version: THEME_TRAIT_VERSION, theme: second_theme });
            let after = loaded(loaded(r, first), second);
            &&& after.themes.dom() == r.themes.dom().insert(second_identity@)
            &&& after.themes[second_identity@] == second_theme
        }),
{
    let first = Probe::<H, T, P>::Opened(first_library, Construction::Theme {
        identity: first_identity, abi_version: THEME_TRAIT_VERSION, theme: first_theme });
    let second = Probe::<H, T, P>::Opened(second_library, Construction::Theme {
        identity: second_identity, abi_version: THEME_TRAIT_VERSION, theme: second_theme });
    assert(loaded(loaded(r, first), second).themes.dom() =~= r.themes.dom().insert(second_identity@));
}

/// An object whose reported ABI version differs from the one expected for
/// its kind is never registered, however well-formed the module is
/// otherwise: the themes and the plugins stay as they were.
pub proof fn lemma_version_mismatch_not_registered<H, T, P>(
    r: RegistryView<H, T, P>,
    library: H,
    construction: Construction<T, P>,
)
    requires
        match construction {
            Construction::Theme { abi_version, .. } => abi_version != THEME_TRAIT_VERSION,
            Construction::Plugin { abi_version, .. } => abi_version != PLUGIN_TRAIT_VERSION,
            _ => false,
        },
    ensures
        ({
            let probe = Probe::Opened(library, construction);
            &&& loaded(r, probe).themes == r.themes
            &&& loaded(r, probe).plugins == r.plugins
            &&& probe_outcome(probe) matches Err(PluginError::IncompatibleVersion(_))
        }),
{
}

} // verus!
