//! The hook protocol: small external programs that may rewrite what the
//! viewer shows for a given item type.  The library owns the registry and
//! the selection rule; running a hook is input/output and happens outside.

use vstd::prelude::*;

use crate::artifact::Artifact;
use crate::context::Context;
use crate::execution::Execution;
use crate::text::str_eq;

verus! {

/// The kind of item a hook is registered for.
#[derive(Debug, Clone, Copy, PartialEq, Eq, Structural, Hash)]
pub enum ItemType {
    Artifact,
    Execution,
    Context,
}

/// The item type named by its command-line spelling, if any.
pub open spec fn parse_item_type(s: Seq<char>) -> Option<ItemType> {
    if s == "artifact"@ {
        Option::Some(ItemType::Artifact)
    } else if s == "execution"@ {
        Option::Some(ItemType::Execution)
    } else if s == "context"@ {
        Option::Some(ItemType::Context)
    } else {
        Option::None
    }
}

impl ItemType {
    /// Parses the command-line spelling of an item type.
    pub fn from_text(s: &str) -> (r: Option<Self>)
        ensures
            r == parse_item_type(s@),
    {
        if str_eq(s, "artifact") {
            Option::Some(ItemType::Artifact)
        } else if str_eq(s, "execution") {
            Option::Some(ItemType::Execution)
        } else if str_eq(s, "context") {
            Option::Some(ItemType::Context)
        } else {
            Option::None
        }
    }
}

/// One hook registration from the command line: the item type and type name
/// it applies to, and the command to run.
#[derive(Debug)]
pub struct HookOpt {
    pub item_type: ItemType,
    pub type_label: String,
    pub command: String,
    pub args: Vec<String>,
}

/// What a hook is selected by: the item type together with the type name.
#[derive(Debug)]
pub struct HookKey {
    pub item_type: ItemType,
    pub type_label: String,
}

/// How a selected hook is run: the program, its arguments, and the
/// environment handed to it.
#[derive(Debug)]
pub struct HookCommand {
    pub path: String,
    pub args: Vec<String>,
    pub envs: Vec<(String, String)>,
}

/// The mathematical value of a list of strings.
pub open spec fn strings_view(v: Seq<String>) -> Seq<Seq<char>> {
    v.map_values(|s: String| s@)
}

/// Copies a list of strings, preserving its value.
pub fn clone_strings(v: &Vec<String>) -> (r: Vec<String>)
    ensures
        strings_view(r@) == strings_view(v@),
{
    let mut r: Vec<String> = Vec::new();
    let mut i: usize = 0;
    while i < v.len()
        invariant
            i <= v@.len(),
            strings_view(r@) =~= strings_view(v@.take(i as int)),
        decreases v@.len() - i,
    {
        r.push(v[i].clone());
        proof {
            assert(strings_view(v@.take(i + 1)) =~= strings_view(v@.take(i as int)).push(
                v@[i as int]@,
            ));
            assert(strings_view(r@) =~= strings_view(v@.take(i + 1)));
        }
        i = i + 1;
    }
    proof {
        assert(v@.take(v@.len() as int) =~= v@);
    }
    r
}

/// The registered hooks, in registration order.
#[derive(Debug)]
pub struct HookRunner {
    pub hooks: Vec<(HookKey, HookCommand)>,
}

/// The command of the last registration matching the key, if any — a later
/// registration for the same key replaces an earlier one.
pub open spec fn find_hook(
    hooks: Seq<(HookKey, HookCommand)>,
    item_type: ItemType,
    type_label: Seq<char>,
) -> Option<int>
    decreases hooks.len(),
{
    if hooks.len() == 0 {
        Option::None
    } else if hooks.last().0.item_type == item_type && hooks.last().0.type_label@ == type_label {
        Option::Some(hooks.len() - 1)
    } else {
        find_hook(hooks.drop_last(), item_type, type_label)
    }
}

/// The environment variable through which a hook learns the store's address.
pub const STORE_URI_ENV: &'static str = "WEIH_MLMD_DB";

impl HookRunner {
    /// Builds the registry from the command-line registrations.  Every hook
    /// receives the metadata store's address in its environment.
    pub fn new(hook_opts: &Vec<HookOpt>, metadata_store_uri: &str) -> (r: HookRunner)
        ensures
            r.hooks@.len() == hook_opts@.len(),
            forall|i: int|
                0 <= i < hook_opts@.len() ==> {
                    let (key, cmd) = #[trigger] r.hooks@[i];
                    &&& key.item_type == hook_opts@[i].item_type
                    &&& key.type_label@ == hook_opts@[i].type_label@
                    &&& cmd.path@ == hook_opts@[i].command@
                    &&& strings_view(cmd.args@) == strings_view(hook_opts@[i].args@)
                    &&& cmd.envs@.len() == 1
                    &&& cmd.envs@[0].0@ == STORE_URI_ENV@
                    &&& cmd.envs@[0].1@ == metadata_store_uri@
                },
    {
        let mut hooks: Vec<(HookKey, HookCommand)> = Vec::new();
        let mut i: usize = 0;
        while i < hook_opts.len()
            invariant
                i <= hook_opts@.len(),
                hooks@.len() == i,
                forall|j: int|
                    0 <= j < i ==> {
                        let (key, cmd) = #[trigger] hooks@[j];
                        &&& key.item_type == hook_opts@[j].item_type
                        &&& key.type_label@ == hook_opts@[j].type_label@
                        &&& cmd.path@ == hook_opts@[j].command@
                        &&& strings_view(cmd.args@) == strings_view(hook_opts@[j].args@)
                        &&& cmd.envs@.len() == 1
                        &&& cmd.envs@[0].0@ == STORE_URI_ENV@
                        &&& cmd.envs@[0].1@ == metadata_store_uri@
                    },
            decreases hook_opts@.len() - i,
        {
            let opt = &hook_opts[i];
            let key = HookKey { item_type: opt.item_type, type_label: opt.type_label.clone() };
            let mut envs: Vec<(String, String)> = Vec::new();
            envs.push((String::from_str(STORE_URI_ENV), metadata_store_uri.to_owned()));
            let cmd = HookCommand {
                path: opt.command.clone(),
                args: clone_strings(&opt.args),
                envs,
            };
            hooks.push((key, cmd));
            i = i + 1;
        }
        HookRunner { hooks }
    }

    /// Selects the hook registered for the item type and type name, if any:
    /// the most recent registration wins.
    pub fn find_command(&self, item_type: ItemType, type_label: &str) -> (r: Option<
        &HookCommand,
    >)
        ensures
            match r {
                Option::Some(cmd) => {
                    &&& find_hook(self.hooks@, item_type, type_label@) matches Option::Some(i)
                    &&& 0 <= i < self.hooks@.len() && *cmd == self.hooks@[i].1
                },
                Option::None => find_hook(self.hooks@, item_type, type_label@) is None,
            },
    {
        let mut i: usize = self.hooks.len();
        proof {
            assert(self.hooks@.take(self.hooks@.len() as int) =~= self.hooks@);
        }
        while i > 0
            invariant
                i <= self.hooks@.len(),
                find_hook(self.hooks@, item_type, type_label@) == find_hook(
                    self.hooks@.take(i as int),
                    item_type,
                    type_label@,
                ),
            decreases i,
        {
            proof {
                assert(self.hooks@.take(i as int).last() == self.hooks@[i - 1]);
                assert(self.hooks@.take(i as int).drop_last() =~= self.hooks@.take(i - 1));
            }
            let (key, cmd) = &self.hooks[i - 1];
            if key.item_type == item_type && str_eq(key.type_label.as_str(), type_label) {
                return Option::Some(cmd);
            }
            i = i - 1;
        }
        proof {
            assert(self.hooks@.take(0) =~= Seq::<(HookKey, HookCommand)>::empty());
        }
        Option::None
    }
}

/// What is handed to a hook on its standard input.
#[derive(Debug)]
pub enum HookInput {
    ArtifactSummary(Vec<Artifact>),
    ArtifactDetail(ArtifactDetailHookInput),
    ArtifactContent(ArtifactContentHookInput),
    ExecutionSummary(Vec<Execution>),
    ExecutionDetail(ExecutionDetailHookInput),
    ExecutionContent(ExecutionContentHookInput),
    ContextSummary(Vec<Context>),
    ContextDetail(ContextDetailHookInput),
    ContextContent(ContextContentHookInput),
}

/// The item type an input is about.
pub open spec fn hook_input_item_type(input: HookInput) -> ItemType {
    match input {
        HookInput::ArtifactSummary(_) | HookInput::ArtifactDetail(_) | HookInput::ArtifactContent(
            _,
        ) => ItemType::Artifact,
        HookInput::ExecutionSummary(_)
        | HookInput::ExecutionDetail(_)
        | HookInput::ExecutionContent(_) => ItemType::Execution,
        HookInput::ContextSummary(_) | HookInput::ContextDetail(_) | HookInput::ContextContent(
            _,
        ) => ItemType::Context,
    }
}

/// A summary input holds at least one entity; its type name is read from the
/// first one.
pub open spec fn hook_input_wf(input: HookInput) -> bool {
    match input {
        HookInput::ArtifactSummary(v) => v@.len() > 0,
        HookInput::ExecutionSummary(v) => v@.len() > 0,
        HookInput::ContextSummary(v) => v@.len() > 0,
        _ => true,
    }
}

/// The type name an input is about.
pub open spec fn hook_input_type_label(input: HookInput) -> Seq<char> {
    match input {
        HookInput::ArtifactSummary(v) => v@[0].type_label@,
        HookInput::ArtifactDetail(x) => x.artifact.type_label@,
        HookInput::ArtifactContent(x) => x.artifact.type_label@,
        HookInput::ExecutionSummary(v) => v@[0].type_label@,
        HookInput::ExecutionDetail(x) => x.execution.type_label@,
        HookInput::ExecutionContent(x) => x.execution.type_label@,
        HookInput::ContextSummary(v) => v@[0].type_label@,
        HookInput::ContextDetail(x) => x.context.type_label@,
        HookInput::ContextContent(x) => x.context.type_label@,
    }
}

impl HookInput {
    /// The item type this input is about.
    pub fn item_type(&self) -> (r: ItemType)
        ensures
            r == hook_input_item_type(*self),
    {
        match self {
            HookInput::ArtifactSummary(_)
            | HookInput::ArtifactDetail(_)
            | HookInput::ArtifactContent(_) => ItemType::Artifact,
            HookInput::ExecutionSummary(_)
            | HookInput::ExecutionDetail(_)
            | HookInput::ExecutionContent(_) => ItemType::Execution,
            HookInput::ContextSummary(_)
            | HookInput::ContextDetail(_)
            | HookInput::ContextContent(_) => ItemType::Context,
        }
    }

    /// The type name this input is about.
    pub fn type_label(&self) -> (r: &str)
        requires
            hook_input_wf(*self),
        ensures
            r@ == hook_input_type_label(*self),
    {
        match self {
            HookInput::ArtifactSummary(v) => v[0].type_label.as_str(),
            HookInput::ArtifactDetail(x) => x.artifact.type_label.as_str(),
            HookInput::ArtifactContent(x) => x.artifact.type_label.as_str(),
            HookInput::ExecutionSummary(v) => v[0].type_label.as_str(),
            HookInput::ExecutionDetail(x) => x.execution.type_label.as_str(),
            HookInput::ExecutionContent(x) => x.execution.type_label.as_str(),
            HookInput::ContextSummary(v) => v[0].type_label.as_str(),
            HookInput::ContextDetail(x) => x.context.type_label.as_str(),
            HookInput::ContextContent(x) => x.context.type_label.as_str(),
        }
    }
}

/// The artifact a detail hook may rewrite.
#[derive(Debug)]
pub struct ArtifactDetailHookInput {
    pub artifact: Artifact,
}

/// The artifact and content name a content hook answers for.
#[derive(Debug)]
pub struct ArtifactContentHookInput {
    pub artifact: Artifact,
    pub content_name: String,
}

/// The execution a detail hook may rewrite.
#[derive(Debug)]
pub struct ExecutionDetailHookInput {
    pub execution: Execution,
}

/// The execution and content name a content hook answers for.
#[derive(Debug)]
pub struct ExecutionContentHookInput {
    pub execution: Execution,
    pub content_name: String,
}

/// The context a detail hook may rewrite.
#[derive(Debug)]
pub struct ContextDetailHookInput {
    pub context: Context,
}

/// The context and content name a content hook answers for.
#[derive(Debug)]
pub struct ContextContentHookInput {
    pub context: Context,
    pub content_name: String,
}

/// What a hook answers on its standard output.
#[derive(Debug)]
pub enum HookOutput {
    ArtifactSummary(Vec<Artifact>),
    ArtifactDetail(ArtifactDetailHookOutput),
    ArtifactContent(GeneralOutput),
    ExecutionSummary(Vec<Execution>),
    ExecutionDetail(ExecutionDetailHookOutput),
    ExecutionContent(GeneralOutput),
    ContextSummary(Vec<Context>),
    ContextDetail(ContextDetailHookOutput),
    ContextContent(GeneralOutput),
}

/// The rewritten artifact a detail hook answered with.
#[derive(Debug)]
pub struct ArtifactDetailHookOutput {
    pub artifact: Artifact,
}

/// The rewritten execution a detail hook answered with.
#[derive(Debug)]
pub struct ExecutionDetailHookOutput {
    pub execution: Execution,
}

/// The rewritten context a detail hook answered with.
#[derive(Debug)]
pub struct ContextDetailHookOutput {
    pub context: Context,
}

/// A content hook's answer, tagged with how it should be served.
#[derive(Debug)]
pub enum GeneralOutput {
    Json(String),
    Markdown(String),
    Html(String),
}

} // verus!
