//! The application configuration: an ordered list of capability plugins,
//! assembled once before startup.

use vstd::prelude::*;

verus! {

/// One capability slot the shell can enable. Each descriptor names a
/// host-provided integration; the integration's own behaviour is opaque to
/// the shell, which only decides whether and in what order it is enabled.
#[derive(Clone, Copy, Debug, PartialEq, Eq, Structural)]
pub enum PluginKind {
    /// Persistent key-value storage.
    Storage,
    /// An HTTP client.
    Network,
    /// Native file dialogs.
    Dialogs,
    /// System notification delivery.
    Notifications,
    /// Opening URLs in the OS default handler.
    ExternalOpen,
}

/// No capability appears twice in the sequence.
pub open spec fn distinct_plugins(s: Seq<PluginKind>) -> bool {
    forall|i: int, j: int| 0 <= i < j < s.len() ==> s[i] != s[j]
}

/// What registering the descriptors of `add` one call at a time, in order,
/// does to a configuration whose plugin sequence is `base`: each call appends
/// one descriptor at the end.
pub open spec fn register_in_sequence(base: Seq<PluginKind>, add: Seq<PluginKind>) -> Seq<PluginKind>
    decreases add.len(),
{
    if add.len() == 0 {
        base
    } else {
        register_in_sequence(base.push(add[0]), add.skip(1))
    }
}

/// Order-preservation law: registering a descriptor sequence one call at a
/// time yields exactly the already registered plugins followed by the new
/// descriptors in their input order — nothing reordered, dropped or added.
pub proof fn lemma_register_in_sequence_preserves_order(base: Seq<PluginKind>, add: Seq<PluginKind>)
    ensures
        register_in_sequence(base, add) == base + add,
    decreases add.len(),
{
    if add.len() == 0 {
        assert(base + add =~= base);
    } else {
        lemma_register_in_sequence_preserves_order(base.push(add[0]), add.skip(1));
        assert(base.push(add[0]) + add.skip(1) =~= base + add);
    }
}

/// The in-memory application configuration: the capability plugins registered
/// so far, in registration order. A configuration is assembled by the single
/// initialization thread and then consumed exactly once by startup; nothing
/// can be added to it afterwards, because startup takes it by value.
#[derive(Debug)]
pub struct AppConfig {
    plugins: Vec<PluginKind>,
}

impl View for AppConfig {
    type V = Seq<PluginKind>;

    closed spec fn view(&self) -> Seq<PluginKind> {
        self.plugins@
    }
}

/// Returns a fresh configuration with no plugins registered. No inputs, no
/// failure mode.
pub fn initialize_default_configuration() -> (c: AppConfig)
    ensures
        c@ == Seq::<PluginKind>::empty(),
{
    AppConfig { plugins: Vec::new() }
}

impl Default for AppConfig {
    /// Same as `initialize_default_configuration`.
    fn default() -> (c: AppConfig)
        ensures
            c@ == Seq::<PluginKind>::empty(),
    {
        initialize_default_configuration()
    }
}

/// Assembles the shell's full capability set in its fixed order:
/// storage, network, dialogs, notifications, external-open.
pub fn assemble_full_configuration() -> (c: AppConfig)
    ensures
        c@ == seq![
            PluginKind::Storage,
            PluginKind::Network,
            PluginKind::Dialogs,
            PluginKind::Notifications,
            PluginKind::ExternalOpen,
        ],
{
    let c = initialize_default_configuration()
        .register_plugin(PluginKind::Storage)
        .register_plugin(PluginKind::Network)
        .register_plugin(PluginKind::Dialogs)
        .register_plugin(PluginKind::Notifications)
        .register_plugin(PluginKind::ExternalOpen);
    proof {
        assert(c@ =~= seq![
            PluginKind::Storage,
            PluginKind::Network,
            PluginKind::Dialogs,
            PluginKind::Notifications,
            PluginKind::ExternalOpen,
        ]);
    }
    c
}

impl AppConfig {
    /// Whether `plugin` is already registered.
    pub fn contains_plugin(&self, plugin: PluginKind) -> (r: bool)
        ensures
            r == self@.contains(plugin),
    {
        let mut i: usize = 0;
        while i < self.plugins.len()
            invariant
                i <= self.plugins.len(),
                forall|k: int| 0 <= k < i ==> self.plugins@[k] != plugin,
            decreases self.plugins.len() - i,
        {
            if self.plugins[i] == plugin {
                return true;
            }
            i = i + 1;
        }
        false
    }

    /// Registers `plugin` at the end of the configuration, preserving the
    /// order of everything registered before it. Each capability may be
    /// registered at most once, so the caller must not pass one that is
    /// already present; `contains_plugin` answers that question.
    pub fn register_plugin(self, plugin: PluginKind) -> (c: AppConfig)
        requires
            !self@.contains(plugin),
        ensures
            c@ == self@.push(plugin),
            distinct_plugins(self@) ==> distinct_plugins(c@),
    {
        let mut plugins = self.plugins;
        plugins.push(plugin);
        let c = AppConfig { plugins };
        proof {
            if distinct_plugins(self@) {
                assert forall|i: int, j: int| 0 <= i < j < c@.len() implies c@[i] != c@[j] by {
                    if j == self@.len() {
                        assert(c@[i] == self@[i]);
                        assert(c@[j] == plugin);
                    }
                }
            }
        }
        c
    }

    /// Registers each descriptor of `plugins` in sequence, one
    /// `register_plugin` call per element, in the given order. No descriptor
    /// may coincide with an already registered one or with another element,
    /// which `distinct_plugins` over the whole combined sequence says at
    /// once.
    pub fn register_plugins(self, plugins: &Vec<PluginKind>) -> (c: AppConfig)
        requires
            distinct_plugins(self@ + plugins@),
        ensures
            c@ == register_in_sequence(self@, plugins@),
            c@ == self@ + plugins@,
    {
        let ghost base: Seq<PluginKind> = self@;
        let ghost full: Seq<PluginKind> = self@ + plugins@;
        let mut c = self;
        let mut i: usize = 0;
        while i < plugins.len()
            invariant
                i <= plugins@.len(),
                c@ == base + plugins@.subrange(0, i as int),
                distinct_plugins(full),
                full == base + plugins@,
            decreases plugins@.len() - i,
        {
            proof {
                assert forall|k: int| 0 <= k < c@.len() implies c@[k] != plugins@[i as int] by {
                    assert(c@[k] == full[k]);
                    assert(plugins@[i as int] == full[base.len() + i]);
                }
                assert(!c@.contains(plugins@[i as int]));
            }
            c = c.register_plugin(plugins[i]);
            i = i + 1;
            proof {
                assert(c@ =~= base + plugins@.subrange(0, i as int));
            }
        }
        proof {
            assert(plugins@.subrange(0, plugins@.len() as int) =~= plugins@);
            lemma_register_in_sequence_preserves_order(base, plugins@);
        }
        c
    }

    /// The registered plugins, in registration order.
    pub fn plugins(&self) -> (v: &Vec<PluginKind>)
        ensures
            v@ == self@,
    {
        &self.plugins
    }
}

} // verus!
