use vstd::prelude::*;

use crate::nodes::{Node, NodeId, Nodes};
use crate::settings::Settings;
use crate::text::{dec_str, str_eq, usize_to_string};
use crate::types::Action;

verus! {

/// Menu identifier of the configure item.
pub const MENU_ID_CONFIGURE: &'static str = "configure";

/// Menu identifier of the reload item.
pub const MENU_ID_RELOAD: &'static str = "reload";

/// Menu identifier of the quit item.
pub const MENU_ID_QUIT: &'static str = "quit";

/// Prefix of the menu identifiers of action items.
pub const MENU_ID_ACTION_PREFIX: &'static str = "action_";

/// Prefix of the menu identifiers of host items.
pub const MENU_ID_HOST_PREFIX: &'static str = "host_";

/// The stable menu identifier of the action leaf with index `i`.
pub open spec fn action_menu_id(i: int) -> Seq<char> {
    "action_"@ + dec_str(i as nat)
}

/// The stable menu identifier of the host leaf with index `i`.
pub open spec fn host_menu_id(i: int) -> Seq<char> {
    "host_"@ + dec_str(i as nat)
}

/// One element of the menu, free of any widget library: a clickable item
/// with its stable identifier, a named submenu, or a separator.
#[derive(Debug)]
pub enum MenuEntry {
    /// A clickable item.
    Item {
        /// The stable identifier reported when the item is clicked.
        id: String,
        /// The text shown.
        label: String,
    },
    /// A named submenu.
    Submenu {
        /// The text shown.
        name: String,
        /// The submenu's entries.
        children: Vec<MenuEntry>,
    },
    /// A separator line.
    Separator,
}

/// The computed menu: the entries to render, in order, and the table from
/// menu identifier to command.
#[derive(Debug)]
pub struct MenuPlan {
    /// The menu entries, in order.
    pub entries: Vec<MenuEntry>,
    /// Pairs of menu identifier and the command it dispatches to.
    pub commands: Vec<(String, String)>,
}

/// Whether a menu entry mirrors a node of the action tree: a leaf becomes
/// an item labelled with the action's name under the leaf's identifier, a
/// group becomes a submenu of the same name.
pub open spec fn entry_mirrors_node(m: MenuEntry, n: Node<Action>) -> bool
    decreases n, 0int,
{
    match n {
        Node::Leaf { id, value } => (m matches MenuEntry::Item { id: mid, label } && mid@
            == action_menu_id(id@) && label@ == value@.name),
        Node::Group { name, children } => (m matches MenuEntry::Submenu {
            name: mname,
            children: mc,
        } && mname@ == name@ && entries_mirror_nodes(mc@, children@)),
    }
}

/// Whether a sequence of menu entries mirrors a forest, element by element.
pub open spec fn entries_mirror_nodes(ms: Seq<MenuEntry>, ns: Seq<Node<Action>>) -> bool
    decreases ns, 1int,
{
    &&& ms.len() == ns.len()
    &&& (ns.len() == 0 || (entry_mirrors_node(ms[0], ns[0]) && entries_mirror_nodes(
        ms.drop_first(),
        ns.drop_first(),
    )))
}

fn action_menu_item_id(id: &NodeId) -> (r: String)
    ensures
        r@ == action_menu_id(id@),
{
    let mut s = String::from_str("action_");
    let digits = usize_to_string(id.index());
    s.append(digits.as_str());
    s
}

fn host_menu_item_id(i: usize) -> (r: String)
    ensures
        r@ == host_menu_id(i as int),
{
    let mut s = String::from_str("host_");
    let digits = usize_to_string(i);
    s.append(digits.as_str());
    s
}

fn menu_entry_of_node(n: &Node<Action>) -> (m: MenuEntry)
    ensures
        entry_mirrors_node(m, *n),
    decreases n, 0int,
{
    match n {
        Node::Leaf { id, value } => MenuEntry::Item {
            id: action_menu_item_id(id),
            label: value.name.clone(),
        },
        Node::Group { name, children } => {
            let mc = action_menu_entries(children.as_slice(), 0);
            proof {
                assert(children@.skip(0) =~= children@);
            }
            MenuEntry::Submenu { name: name.clone(), children: mc }
        },
    }
}

fn action_menu_entries(nodes: &[Node<Action>], i: usize) -> (ms: Vec<MenuEntry>)
    requires
        i <= nodes@.len(),
    ensures
        entries_mirror_nodes(ms@, nodes@.skip(i as int)),
    decreases nodes@, nodes@.len() - i,
{
    if i >= nodes.len() {
        let ms: Vec<MenuEntry> = Vec::new();
        proof {
            assert(nodes@.skip(i as int) =~= Seq::<Node<Action>>::empty());
        }
        return ms;
    }
    let first = menu_entry_of_node(vstd::slice::slice_index_get(nodes, i));
    let mut rest = action_menu_entries(nodes, i + 1);
    let ghost rest0 = rest@;
    let mut ms: Vec<MenuEntry> = Vec::new();
    ms.push(first);
    ms.append(&mut rest);
    proof {
        assert(ms@ =~= seq![first] + rest0);
        assert(ms@.drop_first() =~= rest0);
        assert(nodes@.skip(i as int)[0] == nodes@[i as int]);
        assert(nodes@.skip(i as int).drop_first() =~= nodes@.skip(i + 1 as int));
    }
    ms
}

/// The identifier-to-command table: one pair per action leaf, under the
/// action prefix and the action's command, followed by one pair per host,
/// under the host prefix and the host's `ssh` command.
pub fn menu_commands(s: &Settings) -> (r: Vec<(String, String)>)
    ensures
        r@.len() == s.actions.spec_leaves().len() + s.hosts.spec_leaves().len(),
        forall|i: int|
            0 <= i < s.actions.spec_leaves().len() ==> (#[trigger] r@[i]).0@ == action_menu_id(i)
                && r@[i].1@ == s.actions.spec_leaves()[i]@.cmd,
        forall|i: int|
            0 <= i < s.hosts.spec_leaves().len() ==> (#[trigger] r@[s.actions.spec_leaves().len()
                + i]).0@ == host_menu_id(i) && r@[s.actions.spec_leaves().len() + i].1@ == "ssh "@
                + s.hosts.spec_leaves()[i]@,
{
    let mut r: Vec<(String, String)> = Vec::new();
    let na = s.actions.len();
    let mut i: usize = 0;
    while i < na
        invariant
            i <= na,
            na == s.actions.spec_leaves().len(),
            r@.len() == i,
            forall|k: int|
                0 <= k < i ==> (#[trigger] r@[k]).0@ == action_menu_id(k) && r@[k].1@
                    == s.actions.spec_leaves()[k]@.cmd,
        decreases na - i,
    {
        let id = NodeId::from_index(i);
        match s.actions.get(id) {
            Some(a) => {
                r.push((action_menu_item_id(&id), a.cmd.clone()));
            },
            None => {
                proof {
                    assert(false);
                }
            },
        }
        i = i + 1;
    }
    let nh = s.hosts.len();
    let mut j: usize = 0;
    while j < nh
        invariant
            j <= nh,
            na == s.actions.spec_leaves().len(),
            nh == s.hosts.spec_leaves().len(),
            r@.len() == na + j,
            forall|k: int|
                0 <= k < na ==> (#[trigger] r@[k]).0@ == action_menu_id(k) && r@[k].1@
                    == s.actions.spec_leaves()[k]@.cmd,
            forall|k: int|
                0 <= k < j ==> (#[trigger] r@[na + k]).0@ == host_menu_id(k) && r@[na + k].1@
                    == "ssh "@ + s.hosts.spec_leaves()[k]@,
        decreases nh - j,
    {
        let id = NodeId::from_index(j);
        match s.hosts.get(id) {
            Some(h) => {
                r.push((host_menu_item_id(j), h.command()));
            },
            None => {
                proof {
                    assert(false);
                }
            },
        }
        j = j + 1;
    }
    r
}

/// Whether the rendered entries lay the menu out as the settings demand:
/// the mirrored action tree; a separator where both sections have items;
/// one item per host; a separator where any dynamic item exists; then the
/// static configure, reload and quit items.
pub open spec fn menu_entries_match(es: Seq<MenuEntry>, s: Settings) -> bool {
    let na = s.actions.spec_tree().len();
    let nh = s.hosts.spec_leaves().len();
    let sep1: int = if s.actions.spec_leaves().len() > 0 && nh > 0 {
        1int
    } else {
        0int
    };
    let sep2: int = if s.actions.spec_leaves().len() > 0 || nh > 0 {
        1int
    } else {
        0int
    };
    &&& es.len() == na + sep1 + nh + sep2 + 3
    &&& entries_mirror_nodes(es.take(na as int), s.actions.spec_tree())
    &&& (sep1 == 1 ==> es[na as int] is Separator)
    &&& forall|i: int|
        0 <= i < nh ==> ((#[trigger] es[na + sep1 + i]) matches MenuEntry::Item { id, label }
            && id@ == host_menu_id(i) && label@ == s.hosts.spec_leaves()[i]@)
    &&& (sep2 == 1 ==> es[na + sep1 + nh] is Separator)
    &&& (es[na + sep1 + nh + sep2] matches MenuEntry::Item { id, label } && id@ == "configure"@
        && label@ == "Configure"@)
    &&& (es[na + sep1 + nh + sep2 + 1] matches MenuEntry::Item { id, label } && id@ == "reload"@
        && label@ == "Reload"@)
    &&& (es[na + sep1 + nh + sep2 + 2] matches MenuEntry::Item { id, label } && id@ == "quit"@
        && label@ == "Quit"@)
}

/// Builds the menu from the settings: the action tree as items and
/// submenus, then the hosts, separated where both exist, then the static
/// items, together with the identifier-to-command table.
pub fn build_menu(s: &Settings) -> (r: MenuPlan)
    ensures
        menu_entries_match(r.entries@, *s),
        r.commands@.len() == s.actions.spec_leaves().len() + s.hosts.spec_leaves().len(),
        forall|i: int|
            0 <= i < s.actions.spec_leaves().len() ==> (#[trigger] r.commands@[i]).0@
                == action_menu_id(i) && r.commands@[i].1@ == s.actions.spec_leaves()[i]@.cmd,
        forall|i: int|
            0 <= i < s.hosts.spec_leaves().len() ==> (#[trigger] r.commands@[
                s.actions.spec_leaves().len() + i]).0@ == host_menu_id(i) && r.commands@[
                s.actions.spec_leaves().len() + i].1@ == "ssh "@ + s.hosts.spec_leaves()[i]@,
{
    let ghost na = s.actions.spec_tree().len();
    let mut entries = action_menu_entries(s.actions.nodes(), 0);
    proof {
        assert(s.actions.spec_tree().skip(0) =~= s.actions.spec_tree());
    }
    let ghost part_a = entries@;
    if !s.actions.is_empty() && !s.hosts.is_empty() {
        entries.push(MenuEntry::Separator);
    }
    let ghost sep1: int = if s.actions.spec_leaves().len() > 0
        && s.hosts.spec_leaves().len() > 0 {
        1int
    } else {
        0int
    };
    let nh = s.hosts.len();
    let mut j: usize = 0;
    while j < nh
        invariant
            j <= nh,
            nh == s.hosts.spec_leaves().len(),
            na == s.actions.spec_tree().len(),
            part_a.len() == na,
            sep1 == (if s.actions.spec_leaves().len() > 0 && s.hosts.spec_leaves().len() > 0 {
                1int
            } else {
                0int
            }),
            entries@.len() == na + sep1 + j,
            entries@.take(na as int) == part_a,
            sep1 == 1 ==> entries@[na as int] is Separator,
            forall|k: int|
                0 <= k < j ==> ((#[trigger] entries@[na + sep1 + k]) matches MenuEntry::Item {
                    id,
                    label,
                } && id@ == host_menu_id(k) && label@ == s.hosts.spec_leaves()[k]@),
        decreases nh - j,
    {
        let id = NodeId::from_index(j);
        match s.hosts.get(id) {
            Some(h) => {
                entries.push(
                    MenuEntry::Item { id: host_menu_item_id(j), label: h.hostname.clone() },
                );
            },
            None => {
                proof {
                    assert(false);
                }
            },
        }
        proof {
            assert(entries@.take(na as int) =~= part_a);
        }
        j = j + 1;
    }
    if !s.actions.is_empty() || !s.hosts.is_empty() {
        entries.push(MenuEntry::Separator);
    }
    entries.push(
        MenuEntry::Item { id: String::from_str("configure"), label: String::from_str("Configure") },
    );
    entries.push(
        MenuEntry::Item { id: String::from_str("reload"), label: String::from_str("Reload") },
    );
    entries.push(MenuEntry::Item { id: String::from_str("quit"), label: String::from_str("Quit") });
    let commands = menu_commands(s);
    proof {
        assert(entries@.take(na as int) =~= part_a);
    }
    MenuPlan { entries, commands }
}

/// The command under the first occurrence of `key` in the table, at or
/// after position `i`.
pub open spec fn command_lookup_from(
    pairs: Seq<(String, String)>,
    key: Seq<char>,
    i: int,
) -> Option<Seq<char>>
    decreases pairs.len() - i,
{
    if i < 0 || i >= pairs.len() {
        None
    } else if pairs[i].0@ == key {
        Some(pairs[i].1@)
    } else {
        command_lookup_from(pairs, key, i + 1)
    }
}

/// The command under the first occurrence of `key` in the table, if any.
pub open spec fn command_lookup(pairs: Seq<(String, String)>, key: Seq<char>) -> Option<Seq<char>> {
    command_lookup_from(pairs, key, 0)
}

/// What a menu click dispatches to.
#[derive(Debug)]
pub enum MenuAction {
    /// Leave the application.
    Quit,
    /// Open the configuration for editing.
    Configure,
    /// Reload the settings and rebuild the menu.
    Reload,
    /// Run this command.
    Run(String),
    /// An identifier that is not in the menu: nothing to do.
    Ignored,
}

/// Decides what a clicked menu identifier means: the three static items
/// first, then the identifier-to-command table, and nothing for an unknown
/// identifier.
pub fn dispatch_menu_id(menu_id: &str, commands: &Vec<(String, String)>) -> (r: MenuAction)
    ensures
        menu_id@ == "quit"@ ==> r is Quit,
        menu_id@ == "configure"@ ==> r is Configure,
        menu_id@ == "reload"@ ==> r is Reload,
        (menu_id@ != "quit"@ && menu_id@ != "configure"@ && menu_id@ != "reload"@) ==> match
            command_lookup(commands@, menu_id@) {
            Some(c) => r matches MenuAction::Run(cmd) && cmd@ == c,
            None => r is Ignored,
        },
{
    proof {
        reveal_strlit("quit");
        reveal_strlit("configure");
        reveal_strlit("reload");
        assert("quit"@.len() == 4);
        assert("configure"@.len() == 9);
        assert("reload"@.len() == 6);
    }
    if str_eq(menu_id, "quit") {
        return MenuAction::Quit;
    }
    if str_eq(menu_id, "configure") {
        return MenuAction::Configure;
    }
    if str_eq(menu_id, "reload") {
        return MenuAction::Reload;
    }
    let mut i: usize = 0;
    while i < commands.len()
        invariant
            i <= commands@.len(),
            menu_id@ != "quit"@,
            menu_id@ != "configure"@,
            menu_id@ != "reload"@,
            command_lookup(commands@, menu_id@) == command_lookup_from(
                commands@,
                menu_id@,
                i as int,
            ),
        decreases commands@.len() - i,
    {
        if str_eq(commands[i].0.as_str(), menu_id) {
            return MenuAction::Run(commands[i].1.clone());
        }
        i = i + 1;
    }
    MenuAction::Ignored
}

/// Whether the editor runs inside a terminal.
pub open spec fn spec_terminal_editor(e: Seq<char>) -> bool {
    ||| e == "nano"@
    ||| e == "vim"@
    ||| e == "vi"@
    ||| e == "nvim"@
    ||| e == "emacs"@
    ||| e == "micro"@
    ||| e == "ne"@
    ||| e == "joe"@
    ||| e == "pico"@
    ||| e == "ed"@
}

/// Returns `true` exactly for the editors that run inside a terminal.
pub fn is_terminal_editor(editor: &str) -> (r: bool)
    ensures
        r == spec_terminal_editor(editor@),
{
    str_eq(editor, "nano") || str_eq(editor, "vim") || str_eq(editor, "vi") || str_eq(
        editor,
        "nvim",
    ) || str_eq(editor, "emacs") || str_eq(editor, "micro") || str_eq(editor, "ne") || str_eq(
        editor,
        "joe",
    ) || str_eq(editor, "pico") || str_eq(editor, "ed")
}

/// How the configuration file is opened for editing.
#[derive(Debug)]
pub enum ConfigurePlan {
    /// Open the file with the system's default handler.
    OpenDefault,
    /// Run this command in the configured terminal.
    InTerminal(String),
    /// Open the file with this program.
    OpenWith(String),
}

/// Decides how to open the configuration file: the system default for the
/// `default` editor, the editor run in a terminal when it is a terminal
/// editor, and a plain open-with otherwise.
pub fn configure_plan(editor: &str, config_path: &str) -> (r: ConfigurePlan)
    ensures
        editor@ == "default"@ ==> r is OpenDefault,
        editor@ != "default"@ && spec_terminal_editor(editor@) ==> (r matches
            ConfigurePlan::InTerminal(cmd) && cmd@ == editor@ + " "@ + config_path@),
        editor@ != "default"@ && !spec_terminal_editor(editor@) ==> (r matches
            ConfigurePlan::OpenWith(e) && e@ == editor@),
{
    if str_eq(editor, "default") {
        ConfigurePlan::OpenDefault
    } else if is_terminal_editor(editor) {
        let mut cmd = String::from_str(editor);
        cmd.append(" ");
        cmd.append(config_path);
        ConfigurePlan::InTerminal(cmd)
    } else {
        ConfigurePlan::OpenWith(String::from_str(editor))
    }
}

} // verus!
