//! The Kubernetes module: the current context of a kubeconfig and, if it is
//! set, the namespace of that context.

use vstd::prelude::*;
use crate::module::Module;
use crate::segment::{Segment, SegmentView, segment_views, text_segments};
use crate::style::{Color, TextStyle};
use crate::yaml::{YamlNode, load_yaml, yaml_documents};

verus! {

/// How the Kubernetes module is shown.
#[derive(Clone, Debug, PartialEq, Eq)]
pub struct KubernetesConfig {
    /// What stands in front of the context's name.
    pub symbol: String,
    /// The style of the symbol, the name and the namespace.
    pub style: TextStyle,
    /// Whether the module is switched off.
    pub disabled: bool,
    /// Names to show in place of a context's own. Each pair is a context, or
    /// a regular expression for contexts, and what to show. Earlier pairs
    /// go before later ones.
    pub context_aliases: Vec<(String, String)>,
}

/// The style of the module unless another is set: bold cyan.
pub open spec fn default_style() -> TextStyle {
    TextStyle {
        foreground: Some(Color::Cyan),
        background: None,
        is_bold: true,
        is_dimmed: false,
        is_italic: false,
        is_underline: false,
        is_blink: false,
        is_reverse: false,
        is_hidden: false,
        is_strikethrough: false,
    }
}

impl Default for KubernetesConfig {
    /// The module as it is set up from the start: switched off, with the
    /// helm as its symbol, in bold cyan, and without aliases.
    fn default() -> (config: KubernetesConfig)
        ensures
            config.symbol@ == "☸ "@,
            config.style == default_style(),
            config.disabled,
            config.context_aliases@.len() == 0,
    {
        KubernetesConfig {
            symbol: String::from_str("☸ "),
            style: TextStyle {
                foreground: Some(Color::Cyan),
                background: None,
                is_bold: true,
                is_dimmed: false,
                is_italic: false,
                is_underline: false,
                is_blink: false,
                is_reverse: false,
                is_hidden: false,
                is_strikethrough: false,
            },
            disabled: true,
            context_aliases: Vec::new(),
        }
    }
}

/// The text, if there is one and it is not empty.
pub open spec fn non_empty(text: Option<Seq<char>>) -> Option<Seq<char>> {
    match text {
        Some(t) => if t.len() > 0 {
            Some(t)
        } else {
            None
        },
        None => None,
    }
}

/// The string that a node holds under `key`.
pub open spec fn string_at(node: YamlNode, key: Seq<char>) -> Option<Seq<char>> {
    match node.spec_get(key) {
        Some(value) => value.spec_as_str(),
        None => None,
    }
}

/// The current context that the documents of a kubeconfig name: the string
/// under `current-context` in the first document, unless it is empty.
pub open spec fn document_context(documents: Seq<YamlNode>) -> Option<Seq<char>> {
    if documents.len() > 0 {
        non_empty(string_at(documents[0], "current-context"@))
    } else {
        None
    }
}

/// The current context that a kubeconfig with these contents names, if the
/// contents can be read at all.
pub open spec fn kube_context(contents: Seq<char>) -> Option<Seq<char>> {
    match yaml_documents(contents) {
        Some(documents) => document_context(documents),
        None => None,
    }
}

/// Where the first entry at or after `from` stands whose name is `name`.
pub open spec fn find_context(entries: Seq<YamlNode>, name: Seq<char>, from: int) -> Option<int>
    decreases entries.len() - from,
{
    if from < 0 || from >= entries.len() {
        None
    } else if string_at(entries[from], "name"@) == Some(name) {
        Some(from)
    } else {
        find_context(entries, name, from + 1)
    }
}

/// The namespace that an entry of `contexts` sets.
pub open spec fn entry_namespace(entry: YamlNode) -> Option<Seq<char>> {
    match entry.spec_get("context"@) {
        Some(context) => string_at(context, "namespace"@),
        None => None,
    }
}

/// The entries under `contexts` in the first document.
pub open spec fn document_entries(documents: Seq<YamlNode>) -> Option<Seq<YamlNode>> {
    if documents.len() > 0 {
        match documents[0].spec_get("contexts"@) {
            Some(list) => list.spec_as_vec(),
            None => None,
        }
    } else {
        None
    }
}

/// The namespace that the documents of a kubeconfig set for the context
/// `name`: that of the first entry of `contexts` with this name, unless it
/// is empty.
pub open spec fn document_namespace(documents: Seq<YamlNode>, name: Seq<char>) -> Option<Seq<char>> {
    match document_entries(documents) {
        Some(entries) => match find_context(entries, name, 0) {
            Some(i) => non_empty(entry_namespace(entries[i])),
            None => None,
        },
        None => None,
    }
}

/// The namespace that a kubeconfig with these contents sets for the context
/// `name`, if the contents can be read at all.
pub open spec fn kube_namespace(contents: Seq<char>, name: Seq<char>) -> Option<Seq<char>> {
    match yaml_documents(contents) {
        Some(documents) => document_namespace(documents, name),
        None => None,
    }
}

/// The string that a node holds under `key`.
fn string_under<'a>(node: &'a YamlNode, key: &str) -> (text: Option<&'a str>)
    ensures
        match text {
            Some(s) => string_at(*node, key@) == Some(s@),
            None => string_at(*node, key@) is None,
        },
{
    match node.get(key) {
        Some(value) => value.as_str(),
        None => None,
    }
}

/// The current context that the documents of a kubeconfig name: the string
/// under `current-context` in the first document. `None` where there is no
/// document, no such string, or an empty one.
pub fn context_of(documents: &Vec<YamlNode>) -> (context: Option<String>)
    ensures
        match context {
            Some(c) => document_context(documents@) == Some(c@),
            None => document_context(documents@) is None,
        },
{
    if documents.len() == 0 {
        return None;
    }
    let current_ctx = match string_under(&documents[0], "current-context") {
        Some(text) => text,
        None => {
            return None;
        },
    };
    if current_ctx.is_empty() {
        return None;
    }
    Some(String::from_str(current_ctx))
}

/// The namespace that the documents of a kubeconfig set for the context
/// `current_ctx`: the string under `context`, `namespace` in the first
/// entry of `contexts` whose `name` is that context. `None` where there is
/// no such entry, or no namespace in it, or an empty one.
pub fn namespace_of(documents: &Vec<YamlNode>, current_ctx: &str) -> (namespace: Option<String>)
    ensures
        match namespace {
            Some(ns) => document_namespace(documents@, current_ctx@) == Some(ns@),
            None => document_namespace(documents@, current_ctx@) is None,
        },
{
    if documents.len() == 0 {
        return None;
    }
    let list = match documents[0].get("contexts") {
        Some(list) => list,
        None => {
            return None;
        },
    };
    let contexts = match list.as_vec() {
        Some(contexts) => contexts,
        None => {
            return None;
        },
    };
    let wanted = String::from_str(current_ctx);
    let mut i: usize = 0;
    while i < contexts.len()
        invariant
            i <= contexts.len(),
            wanted@ == current_ctx@,
            document_entries(documents@) == Some(contexts@),
            find_context(contexts@, current_ctx@, 0) == find_context(contexts@, current_ctx@, i as int),
        decreases contexts.len() - i,
    {
        let named = match string_under(&contexts[i], "name") {
            Some(name) => String::from_str(name) == wanted,
            None => false,
        };
        if named {
            let ns = match contexts[i].get("context") {
                Some(context) => string_under(context, "namespace"),
                None => None,
            };
            return match ns {
                Some(text) => if text.is_empty() {
                    None
                } else {
                    Some(String::from_str(text))
                },
                None => None,
            };
        }
        i += 1;
    }
    None
}

/// The current context that a kubeconfig with these contents names: what
/// [`context_of`] finds in its documents, and `None` where the contents are
/// no YAML.
pub fn get_kube_context(contents: &str) -> (context: Option<String>)
    ensures
        match context {
            Some(c) => kube_context(contents@) == Some(c@),
            None => kube_context(contents@) is None,
        },
{
    match load_yaml(contents) {
        Some(yaml_docs) => context_of(&yaml_docs),
        None => None,
    }
}

/// The namespace that a kubeconfig with these contents sets for the context
/// `current_ctx`: what [`namespace_of`] finds in its documents, and `None`
/// where the contents are no YAML.
pub fn get_kube_ns(contents: &str, current_ctx: &str) -> (namespace: Option<String>)
    ensures
        match namespace {
            Some(ns) => kube_namespace(contents@, current_ctx@) == Some(ns@),
            None => kube_namespace(contents@, current_ctx@) is None,
        },
{
    match load_yaml(contents) {
        Some(yaml_docs) => namespace_of(&yaml_docs, current_ctx),
        None => None,
    }
}

/// What `regex` makes of `text` when the first match of `pattern` in it is
/// replaced by `replacement`, in which `$name` stands for what a group
/// matched. `None` where the pattern is no regular expression, and where it
/// matches nowhere in the text.
pub uninterp spec fn regex_replaced(pattern: Seq<char>, text: Seq<char>, replacement: Seq<char>) -> Option<
    Seq<char>,
>;

/// `Regex::new` on the pattern, then `Regex::replace` on the text. `replace`
/// gives an owned string exactly where the pattern matched; the outcome is a
/// function of the three texts alone.
#[verifier::external_body]
fn replace_first(pattern: &str, text: &str, replacement: &str) -> (replaced: Option<String>)
    ensures
        match replaced {
            Some(r) => regex_replaced(pattern@, text@, replacement@) == Some(r@),
            None => regex_replaced(pattern@, text@, replacement@) is None,
        },
{
    match regex::Regex::new(pattern).ok()?.replace(text, replacement) {
        std::borrow::Cow::Owned(replaced) => Some(replaced),
        std::borrow::Cow::Borrowed(_) => None,
    }
}

/// The pattern that matches what `pattern` matches, and only as a whole
/// text.
pub open spec fn anchored(pattern: Seq<char>) -> Seq<char> {
    seq!['^'] + pattern + seq!['$']
}

/// What the first alias at or after `from` shows whose context is `name`
/// itself.
pub open spec fn exact_alias(aliases: Seq<(String, String)>, name: Seq<char>, from: int) -> Option<
    Seq<char>,
>
    decreases aliases.len() - from,
{
    if from < 0 || from >= aliases.len() {
        None
    } else if aliases[from].0@ == name {
        Some(aliases[from].1@)
    } else {
        exact_alias(aliases, name, from + 1)
    }
}

/// What each alias makes of `name` when its context is read as a regular
/// expression for whole names: the alias with its groups filled in, or
/// `None` where the expression does not match.
pub open spec fn replacements(aliases: Seq<(String, String)>, name: Seq<char>) -> Seq<Option<Seq<char>>> {
    aliases.map_values(|alias: (String, String)| regex_replaced(anchored(alias.0@), name, alias.1@))
}

/// The first of the outcomes at or after `from` that is one.
pub open spec fn first_some(outcomes: Seq<Option<Seq<char>>>, from: int) -> Option<Seq<char>>
    decreases outcomes.len() - from,
{
    if from < 0 || from >= outcomes.len() {
        None
    } else {
        match outcomes[from] {
            Some(text) => Some(text),
            None => first_some(outcomes, from + 1),
        }
    }
}

/// The name that a context is shown under, given what each alias makes of
/// it as a regular expression. An alias for the context itself goes first;
/// then the first alias whose expression matched; without either, the
/// context's own name.
pub open spec fn shown_name(
    aliases: Seq<(String, String)>,
    replaced: Seq<Option<Seq<char>>>,
    name: Seq<char>,
) -> Seq<char> {
    match exact_alias(aliases, name, 0) {
        Some(shown) => shown,
        None => match first_some(replaced, 0) {
            Some(shown) => shown,
            None => name,
        },
    }
}

/// The name that a context is shown under. An alias for the context itself
/// goes first; then the first alias whose regular expression matches the
/// whole name, with the groups it refers to filled in; without either, the
/// context's own name.
pub open spec fn context_name(aliases: Seq<(String, String)>, name: Seq<char>) -> Seq<char> {
    shown_name(aliases, replacements(aliases, name), name)
}

/// The views of the outcomes, in order.
pub open spec fn outcome_views(outcomes: Seq<Option<String>>) -> Seq<Option<Seq<char>>> {
    outcomes.map_values(
        |outcome: Option<String>|
            match outcome {
                Some(text) => Some(text@),
                None => None,
            },
    )
}

/// What the first alias shows whose context is `kube_ctx` itself.
pub fn find_exact_alias(aliases: &Vec<(String, String)>, kube_ctx: &str) -> (alias: Option<String>)
    ensures
        match alias {
            Some(shown) => exact_alias(aliases@, kube_ctx@, 0) == Some(shown@),
            None => exact_alias(aliases@, kube_ctx@, 0) is None,
        },
{
    let wanted = String::from_str(kube_ctx);
    let mut i: usize = 0;
    while i < aliases.len()
        invariant
            i <= aliases.len(),
            wanted@ == kube_ctx@,
            exact_alias(aliases@, kube_ctx@, 0) == exact_alias(aliases@, kube_ctx@, i as int),
        decreases aliases.len() - i,
    {
        if aliases[i].0 == wanted {
            return Some(aliases[i].1.clone());
        }
        i += 1;
    }
    None
}

/// The first of the outcomes that is one.
pub fn first_replacement(outcomes: &Vec<Option<String>>) -> (first: Option<String>)
    ensures
        match first {
            Some(text) => first_some(outcome_views(outcomes@), 0) == Some(text@),
            None => first_some(outcome_views(outcomes@), 0) is None,
        },
{
    let ghost views = outcome_views(outcomes@);
    let mut i: usize = 0;
    while i < outcomes.len()
        invariant
            i <= outcomes.len(),
            views == outcome_views(outcomes@),
            first_some(views, 0) == first_some(views, i as int),
        decreases outcomes.len() - i,
    {
        match &outcomes[i] {
            Some(text) => {
                return Some(text.clone());
            },
            None => {},
        }
        i += 1;
    }
    None
}

/// The name that a context is shown under, given what each alias makes of
/// it as a regular expression.
pub fn choose_context_name(
    aliases: &Vec<(String, String)>,
    outcomes: &Vec<Option<String>>,
    kube_ctx: &str,
) -> (name: String)
    ensures
        name@ == shown_name(aliases@, outcome_views(outcomes@), kube_ctx@),
{
    match find_exact_alias(aliases, kube_ctx) {
        Some(shown) => shown,
        None => match first_replacement(outcomes) {
            Some(shown) => shown,
            None => String::from_str(kube_ctx),
        },
    }
}

/// What each alias makes of `kube_ctx` when its context is read as a
/// regular expression for whole names.
fn replace_with_aliases(aliases: &Vec<(String, String)>, kube_ctx: &str) -> (outcomes: Vec<
    Option<String>,
>)
    ensures
        outcome_views(outcomes@) == replacements(aliases@, kube_ctx@),
{
    proof {
        reveal_strlit("^");
        reveal_strlit("$");
    }
    let mut outcomes: Vec<Option<String>> = Vec::new();
    let mut i: usize = 0;
    while i < aliases.len()
        invariant
            i <= aliases.len(),
            "^"@ == seq!['^'],
            "$"@ == seq!['$'],
            outcome_views(outcomes@) == replacements(aliases@, kube_ctx@).take(i as int),
        decreases aliases.len() - i,
    {
        let mut pattern = String::from_str("^");
        pattern.append(aliases[i].0.as_str());
        pattern.append("$");
        let ghost before = outcomes@;
        let outcome = replace_first(pattern.as_str(), kube_ctx, aliases[i].1.as_str());
        outcomes.push(outcome);
        assert(outcome_views(outcomes@) =~= outcome_views(before).push(
            replacements(aliases@, kube_ctx@)[i as int],
        ));
        i += 1;
    }
    outcomes
}

/// The name that the context `kube_ctx` is shown under.
pub fn get_kube_context_name(config: &KubernetesConfig, kube_ctx: &str) -> (name: String)
    ensures
        name@ == context_name(config.context_aliases@, kube_ctx@),
{
    match find_exact_alias(&config.context_aliases, kube_ctx) {
        Some(shown) => shown,
        None => {
            let outcomes = replace_with_aliases(&config.context_aliases, kube_ctx);
            choose_context_name(&config.context_aliases, &outcomes, kube_ctx)
        },
    }
}

/// The first current context that any of the kubeconfigs at or after `from`
/// names.
pub open spec fn first_context(files: Seq<String>, from: int) -> Option<Seq<char>>
    decreases files.len() - from,
{
    if from < 0 || from >= files.len() {
        None
    } else {
        match kube_context(files[from]@) {
            Some(context) => Some(context),
            None => first_context(files, from + 1),
        }
    }
}

/// The first namespace that any of the kubeconfigs at or after `from` sets
/// for the context `name`.
pub open spec fn first_namespace(files: Seq<String>, name: Seq<char>, from: int) -> Option<Seq<char>>
    decreases files.len() - from,
{
    if from < 0 || from >= files.len() {
        None
    } else {
        match kube_namespace(files[from]@, name) {
            Some(namespace) => Some(namespace),
            None => first_namespace(files, name, from + 1),
        }
    }
}

/// The text of the module: the symbol, the name, and the namespace in
/// brackets where there is one.
pub open spec fn context_label(symbol: Seq<char>, name: Seq<char>, namespace: Option<Seq<char>>) -> Seq<
    char,
> {
    match namespace {
        Some(ns) => symbol + name + " ("@ + ns + ")"@,
        None => symbol + name,
    }
}

/// The segments that show a context under `name`: the label in the
/// module's style, then " in " without a style.
pub open spec fn label_segments(config: KubernetesConfig, name: Seq<char>, namespace: Option<Seq<char>>) -> Seq<
    SegmentView,
> {
    text_segments(Some(config.style), context_label(config.symbol@, name, namespace)) + text_segments(
        None,
        " in "@,
    )
}

/// The segments of the module for the context `context`: it is shown under
/// the name that the aliases give it, with the first namespace that a
/// kubeconfig sets for it.
pub open spec fn context_segments(config: KubernetesConfig, files: Seq<String>, context: Seq<char>) -> Seq<
    SegmentView,
> {
    label_segments(
        config,
        context_name(config.context_aliases@, context),
        first_namespace(files, context, 0),
    )
}

/// The segments of the module, or `None` where it is not shown: where it is
/// switched off, and where no kubeconfig names a current context.
pub open spec fn module_segments(config: KubernetesConfig, files: Seq<String>) -> Option<Seq<SegmentView>> {
    if config.disabled {
        None
    } else {
        match first_context(files, 0) {
            Some(context) => Some(context_segments(config, files, context)),
            None => None,
        }
    }
}

/// The first current context that any of the kubeconfigs names.
fn find_kube_context(kube_files: &Vec<String>) -> (context: Option<String>)
    ensures
        match context {
            Some(c) => first_context(kube_files@, 0) == Some(c@),
            None => first_context(kube_files@, 0) is None,
        },
{
    let mut i: usize = 0;
    while i < kube_files.len()
        invariant
            i <= kube_files.len(),
            first_context(kube_files@, 0) == first_context(kube_files@, i as int),
        decreases kube_files.len() - i,
    {
        match get_kube_context(kube_files[i].as_str()) {
            Some(context) => {
                return Some(context);
            },
            None => {},
        }
        i += 1;
    }
    None
}

/// The first namespace that any of the kubeconfigs sets for the context.
fn find_kube_ns(kube_files: &Vec<String>, kube_ctx: &str) -> (namespace: Option<String>)
    ensures
        match namespace {
            Some(ns) => first_namespace(kube_files@, kube_ctx@, 0) == Some(ns@),
            None => first_namespace(kube_files@, kube_ctx@, 0) is None,
        },
{
    let mut i: usize = 0;
    while i < kube_files.len()
        invariant
            i <= kube_files.len(),
            first_namespace(kube_files@, kube_ctx@, 0) == first_namespace(kube_files@, kube_ctx@, i as int),
        decreases kube_files.len() - i,
    {
        match get_kube_ns(kube_files[i].as_str(), kube_ctx) {
            Some(namespace) => {
                return Some(namespace);
            },
            None => {},
        }
        i += 1;
    }
    None
}

/// The segments that show a context under `name`, with its namespace where
/// there is one: the symbol, the name and the namespace in brackets, in the
/// module's style, then " in " without a style.
pub fn kube_segments(config: &KubernetesConfig, name: &str, namespace: Option<&str>) -> (segments: Vec<
    Segment,
>)
    ensures
        segment_views(segments@) == label_segments(
            *config,
            name@,
            match namespace {
                Some(ns) => Some(ns@),
                None => None,
            },
        ),
{
    let mut label = config.symbol.clone();
    label.append(name);
    match namespace {
        Some(ns) => {
            label.append(" (");
            label.append(ns);
            label.append(")");
        },
        None => {},
    }
    let mut segments = Segment::from_text(Some(config.style), label.as_str());
    let mut tail = Segment::from_text(None, " in ");
    segments.append(&mut tail);
    segments
}

/// Fills `base` with the segments of the Kubernetes module, from the
/// contents of the kubeconfigs in the order in which they are searched.
///
/// The module is not shown, and `None` comes back, where it is switched
/// off and where no kubeconfig names a current context. Else the module
/// comes back with its segments set and nothing else changed.
pub fn module<'a>(base: Module<'a>, config: &KubernetesConfig, kube_files: &Vec<String>) -> (shown:
    Option<Module<'a>>)
    ensures
        match shown {
            Some(filled) => {
                &&& module_segments(*config, kube_files@) == Some(filled.segment_views())
                &&& filled.name == base.name
                &&& filled.description == base.description
                &&& filled.config == base.config
                &&& filled.duration_nanos == base.duration_nanos
            },
            None => module_segments(*config, kube_files@) is None,
        },
{
    if config.disabled {
        return None;
    }
    let kube_ctx = match find_kube_context(kube_files) {
        Some(context) => context,
        None => {
            return None;
        },
    };
    let kube_ns = find_kube_ns(kube_files, kube_ctx.as_str());
    let name = get_kube_context_name(config, kube_ctx.as_str());
    let segments = match &kube_ns {
        Some(ns) => kube_segments(config, name.as_str(), Some(ns.as_str())),
        None => kube_segments(config, name.as_str(), None),
    };
    let mut filled = base;
    filled.set_segments(segments);
    Some(filled)
}

} // verus!
