//! The configuration: an override of the manager, command mappings, default
//! options and aliases, and how a project's configuration is laid over the
//! user's.

use crate::text::{copy_all, str_eq, texts};
use vstd::prelude::*;

verus! {

/// Another word for each generic verb.
#[derive(Debug)]
pub struct CommandMappings {
    pub add: Option<String>,
    pub remove: Option<String>,
    pub upgrade: Option<String>,
    pub install: Option<String>,
    pub analyze: Option<String>,
}

/// Arguments that are added to commands by default.
#[derive(Debug)]
pub struct DefaultOptions {
    /// For the add command.
    pub add_args: Option<Vec<String>>,
    /// For the other commands.
    pub default_args: Option<Vec<String>>,
}

/// One configuration. Aliases are held as pairs of a name and what it stands
/// for; where a name occurs more than once, the last pair counts.
#[derive(Debug)]
pub struct MgConfig {
    /// Overrides the detection of the manager.
    pub manager: Option<String>,
    pub commands: Option<CommandMappings>,
    pub defaults: Option<DefaultOptions>,
    pub aliases: Option<Vec<(String, String)>>,
}

/// A text that may be missing, as a character sequence.
pub open spec fn text_of(text: Option<String>) -> Option<Seq<char>> {
    match text {
        Some(s) => Some(s@),
        None => None,
    }
}

/// A list of texts that may be missing, as character sequences.
pub open spec fn texts_of(list: Option<Vec<String>>) -> Option<Seq<Seq<char>>> {
    match list {
        Some(v) => Some(texts(v@)),
        None => None,
    }
}

/// The table that a list of alias pairs stands for.
pub open spec fn alias_map(entries: Seq<(String, String)>) -> Map<Seq<char>, Seq<char>>
    decreases entries.len(),
{
    if entries.len() == 0 {
        Map::empty()
    } else {
        alias_map(entries.drop_last()).insert(entries.last().0@, entries.last().1@)
    }
}

/// A list of alias pairs that may be missing, as a table.
pub open spec fn aliases_of(list: Option<Vec<(String, String)>>) -> Option<
    Map<Seq<char>, Seq<char>>,
> {
    match list {
        Some(v) => Some(alias_map(v@)),
        None => None,
    }
}

pub struct CommandMappingsView {
    pub add: Option<Seq<char>>,
    pub remove: Option<Seq<char>>,
    pub upgrade: Option<Seq<char>>,
    pub install: Option<Seq<char>>,
    pub analyze: Option<Seq<char>>,
}

pub struct DefaultOptionsView {
    pub add_args: Option<Seq<Seq<char>>>,
    pub default_args: Option<Seq<Seq<char>>>,
}

pub struct MgConfigView {
    pub manager: Option<Seq<char>>,
    pub commands: Option<CommandMappingsView>,
    pub defaults: Option<DefaultOptionsView>,
    pub aliases: Option<Map<Seq<char>, Seq<char>>>,
}

impl View for CommandMappings {
    type V = CommandMappingsView;

    open spec fn view(&self) -> CommandMappingsView {
        CommandMappingsView {
            add: text_of(self.add),
            remove: text_of(self.remove),
            upgrade: text_of(self.upgrade),
            install: text_of(self.install),
            analyze: text_of(self.analyze),
        }
    }
}

impl View for DefaultOptions {
    type V = DefaultOptionsView;

    open spec fn view(&self) -> DefaultOptionsView {
        DefaultOptionsView {
            add_args: texts_of(self.add_args),
            default_args: texts_of(self.default_args),
        }
    }
}

impl View for MgConfig {
    type V = MgConfigView;

    open spec fn view(&self) -> MgConfigView {
        MgConfigView {
            manager: text_of(self.manager),
            commands: match self.commands {
                Some(c) => Some(c@),
                None => None,
            },
            defaults: match self.defaults {
                Some(d) => Some(d@),
                None => None,
            },
            aliases: aliases_of(self.aliases),
        }
    }
}

/// The configuration in which nothing is set.
pub open spec fn empty_config() -> MgConfigView {
    MgConfigView { manager: None, commands: None, defaults: None, aliases: None }
}

/// `over` laid over `base`. What `over` sets replaces what `base` has; the
/// aliases of both are kept, and where both have a name, that of `over`
/// counts.
pub open spec fn merged(base: MgConfigView, over: MgConfigView) -> MgConfigView {
    MgConfigView {
        manager: if over.manager is Some {
            over.manager
        } else {
            base.manager
        },
        commands: if over.commands is Some {
            over.commands
        } else {
            base.commands
        },
        defaults: if over.defaults is Some {
            over.defaults
        } else {
            base.defaults
        },
        aliases: match (base.aliases, over.aliases) {
            (Some(a), Some(b)) => Some(a.union_prefer_right(b)),
            (None, Some(b)) => Some(b),
            (a, None) => a,
        },
    }
}

/// What a command resolves to: what it is an alias of, or itself.
pub open spec fn resolved(config: MgConfigView, command: Seq<char>) -> Seq<char> {
    match config.aliases {
        Some(aliases) => if aliases.contains_key(command) {
            aliases[command]
        } else {
            command
        },
        None => command,
    }
}

/// The table of a list of pairs followed by another is the first table with
/// the second laid over it.
pub proof fn lemma_alias_map_concat(a: Seq<(String, String)>, b: Seq<(String, String)>)
    ensures
        alias_map(a + b) == alias_map(a).union_prefer_right(alias_map(b)),
    decreases b.len(),
{
    if b.len() == 0 {
        assert(a + b =~= a);
        assert(alias_map(a).union_prefer_right(alias_map(b)) =~= alias_map(a));
    } else {
        lemma_alias_map_concat(a, b.drop_last());
        assert((a + b).drop_last() =~= a + b.drop_last());
        assert((a + b).last() == b.last());
        assert(alias_map(a + b) =~= alias_map(a).union_prefer_right(alias_map(b)));
    }
}

fn copy_text(text: &Option<String>) -> (copy: Option<String>)
    ensures
        text_of(copy) == text_of(*text),
{
    match text {
        Some(s) => Some(s.clone()),
        None => None,
    }
}

fn copy_texts(list: &Option<Vec<String>>) -> (copy: Option<Vec<String>>)
    ensures
        texts_of(copy) == texts_of(*list),
{
    match list {
        Some(v) => Some(copy_all(v.as_slice())),
        None => None,
    }
}

fn extend_aliases(aliases: &mut Vec<(String, String)>, more: &Vec<(String, String)>)
    ensures
        alias_map(final(aliases)@) == alias_map(old(aliases)@).union_prefer_right(
            alias_map(more@),
        ),
{
    let mut i: usize = 0;
    proof {
        lemma_alias_map_concat(aliases@, more@.take(0));
    }
    while i < more.len()
        invariant
            i <= more@.len(),
            alias_map(aliases@) == alias_map(old(aliases)@).union_prefer_right(
                alias_map(more@.take(i as int)),
            ),
        decreases more@.len() - i,
    {
        let ghost before = aliases@;
        let pair = (more[i].0.clone(), more[i].1.clone());
        aliases.push(pair);
        proof {
            let next = more@.take(i + 1);
            assert(aliases@.drop_last() =~= before);
            assert(next.drop_last() =~= more@.take(i as int));
            assert(next.last() == more@[i as int]);
            assert(alias_map(aliases@) =~= alias_map(old(aliases)@).union_prefer_right(
                alias_map(next),
            ));
        }
        i += 1;
    }
    assert(more@.take(more@.len() as int) =~= more@);
}

impl CommandMappings {
    /// A copy of these mappings.
    pub fn duplicate(&self) -> (copy: Self)
        ensures
            copy@ == self@,
    {
        Self {
            add: copy_text(&self.add),
            remove: copy_text(&self.remove),
            upgrade: copy_text(&self.upgrade),
            install: copy_text(&self.install),
            analyze: copy_text(&self.analyze),
        }
    }
}

impl DefaultOptions {
    /// A copy of these options.
    pub fn duplicate(&self) -> (copy: Self)
        ensures
            copy@ == self@,
    {
        Self {
            add_args: copy_texts(&self.add_args),
            default_args: copy_texts(&self.default_args),
        }
    }
}

impl MgConfig {
    /// The configuration in which nothing is set.
    pub fn empty() -> (config: Self)
        ensures
            config@ == empty_config(),
    {
        Self { manager: None, commands: None, defaults: None, aliases: None }
    }

    /// The user's configuration with the project's laid over it. A
    /// configuration that was not found counts as one in which nothing is
    /// set.
    pub fn load_merged(global: Option<MgConfig>, project: Option<MgConfig>) -> (config: Self)
        ensures
            config@ == merged(
                match global {
                    Some(g) => g@,
                    None => empty_config(),
                },
                match project {
                    Some(p) => p@,
                    None => empty_config(),
                },
            ),
    {
        let mut merged = match global {
            Some(g) => g,
            None => Self::empty(),
        };
        let project = match project {
            Some(p) => p,
            None => Self::empty(),
        };
        merged.merge(&project);
        merged
    }

    /// Lays `other` over this configuration.
    pub fn merge(&mut self, other: &Self)
        ensures
            final(self)@ == merged(old(self)@, other@),
    {
        if other.manager.is_some() {
            self.manager = copy_text(&other.manager);
        }
        match &other.commands {
            Some(commands) => {
                self.commands = Some(commands.duplicate());
            },
            None => {},
        }
        match &other.defaults {
            Some(defaults) => {
                self.defaults = Some(defaults.duplicate());
            },
            None => {},
        }
        match &other.aliases {
            Some(other_aliases) => {
                let mut aliases: Vec<(String, String)> = Vec::new();
                match &self.aliases {
                    Some(self_aliases) => {
                        extend_aliases(&mut aliases, self_aliases);
                        assert(alias_map(aliases@) =~= alias_map(self_aliases@));
                    },
                    None => {},
                }
                extend_aliases(&mut aliases, other_aliases);
                proof {
                    if old(self).aliases is None {
                        assert(alias_map(aliases@) =~= alias_map(other_aliases@));
                    }
                }
                self.aliases = Some(aliases);
            },
            None => {},
        }
    }

    /// What a command resolves to: what it is an alias of, or itself.
    pub fn resolve_alias(&self, command: &str) -> (name: String)
        ensures
            name@ == resolved(self@, command@),
    {
        match &self.aliases {
            Some(aliases) => {
                let mut i: usize = aliases.len();
                assert(aliases@.take(i as int) =~= aliases@);
                while i > 0
                    invariant
                        i <= aliases@.len(),
                        self@.aliases == Some(alias_map(aliases@)),
                        alias_map(aliases@).contains_key(command@) <==> alias_map(
                            aliases@.take(i as int),
                        ).contains_key(command@),
                        alias_map(aliases@).contains_key(command@) ==> alias_map(aliases@)[command@]
                            == alias_map(aliases@.take(i as int))[command@],
                    decreases i,
                {
                    let ghost upto = aliases@.take(i as int);
                    proof {
                        assert(upto.drop_last() =~= aliases@.take(i - 1));
                        assert(upto.last() == aliases@[i - 1]);
                        assert(alias_map(upto) == alias_map(upto.drop_last()).insert(
                            upto.last().0@,
                            upto.last().1@,
                        ));
                    }
                    i -= 1;
                    if str_eq(aliases[i].0.as_str(), command) {
                        assert(alias_map(upto).contains_key(command@));
                        assert(alias_map(upto)[command@] == aliases@[i as int].1@);
                        return aliases[i].1.clone();
                    }
                }
                assert(aliases@.take(0).len() == 0);
                command.to_owned()
            },
            None => command.to_owned(),
        }
    }
}

} // verus!
