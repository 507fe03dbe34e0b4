//! Tool registry: tools by name, and other names that lead to them.

use vstd::prelude::*;
use crate::keyed::{has_key, key_index, keyed_map, lemma_keyed_index, lemma_keyed_push,
    lemma_keyed_update, unique_keys};
use crate::text::{owned, str_eq, views};
use crate::types::tool::Tool;
use crate::tools::builtin::{builtin_entries, builtin_names, builtin_tools, lemma_builtin_names_distinct, BuiltinTool};

verus! {

/// The name of a tool, as a key.
pub open spec fn tool_key<T: Tool>() -> spec_fn(T) -> Seq<char> {
    |t: T| t.spec_name()
}

/// The alias of an alias entry, as a key.
pub open spec fn alias_key() -> spec_fn((String, String)) -> Seq<char> {
    |p: (String, String)| p.0@
}

/// `m` once each of `aliases`, in order, has been made to lead to `name`.
pub open spec fn insert_aliases(
    m: Map<Seq<char>, Seq<char>>,
    aliases: Seq<Seq<char>>,
    name: Seq<char>,
) -> Map<Seq<char>, Seq<char>>
    decreases aliases.len(),
{
    if aliases.len() == 0 {
        m
    } else {
        insert_aliases(m, aliases.drop_last(), name).insert(aliases.last(), name)
    }
}

/// The aliases and name of each tool, in order.
pub open spec fn entries_of<T: Tool>(tools: Seq<T>) -> Seq<(Seq<Seq<char>>, Seq<char>)> {
    tools.map_values(|t: T| (t.spec_aliases(), t.spec_name()))
}

/// `m` once the aliases of each entry, entry after entry, have been made to
/// lead to that entry's name.
pub open spec fn alias_fold(
    m: Map<Seq<char>, Seq<char>>,
    entries: Seq<(Seq<Seq<char>>, Seq<char>)>,
) -> Map<Seq<char>, Seq<char>>
    decreases entries.len(),
{
    if entries.len() == 0 {
        m
    } else {
        insert_aliases(alias_fold(m, entries.drop_last()), entries.last().0, entries.last().1)
    }
}

/// The tool found under `name`: the tool of that name, else the tool that
/// the alias `name` leads to.
pub open spec fn lookup<T>(
    tools: Map<Seq<char>, T>,
    aliases: Map<Seq<char>, Seq<char>>,
    name: Seq<char>,
) -> Option<T> {
    if tools.dom().contains(name) {
        Some(tools[name])
    } else if aliases.dom().contains(name) && tools.dom().contains(aliases[name]) {
        Some(tools[aliases[name]])
    } else {
        None
    }
}

/// Whether the allow and deny lists let the tool `name` through: no denial
/// names it or is "*", and the allow list is empty, names it, or holds "*".
pub open spec fn permitted(name: Seq<char>, allowed: Seq<Seq<char>>, denied: Seq<Seq<char>>) -> bool {
    &&& !denied.contains(name)
    &&& !denied.contains("*"@)
    &&& (allowed.len() == 0 || allowed.contains(name) || allowed.contains("*"@))
}

/// The tools of `tools` that the lists let through, in order.
pub open spec fn filtered<T: Tool>(tools: Seq<T>, allowed: Seq<Seq<char>>, denied: Seq<Seq<char>>) -> Seq<T> {
    tools.filter(|t: T| permitted(t.spec_name(), allowed, denied))
}

/// The names of the tools, in order.
pub open spec fn names_of<T: Tool>(tools: Seq<T>) -> Seq<Seq<char>> {
    tools.map_values(|t: T| t.spec_name())
}

/// The values behind a sequence of references.
pub open spec fn derefs<T>(r: Seq<&T>) -> Seq<T> {
    r.map_values(|t: &T| *t)
}

/// What `insert_aliases` leads each name to.
pub proof fn lemma_insert_aliases(m: Map<Seq<char>, Seq<char>>, aliases: Seq<Seq<char>>, name: Seq<char>)
    ensures
        forall|a: Seq<char>| aliases.contains(a) ==> #[trigger] insert_aliases(m, aliases, name).dom().contains(a)
            && insert_aliases(m, aliases, name)[a] == name,
        forall|a: Seq<char>| !aliases.contains(a) ==> (#[trigger] insert_aliases(m, aliases, name).dom().contains(a)
            == m.dom().contains(a)) && (m.dom().contains(a) ==> insert_aliases(m, aliases, name)[a] == m[a]),
    decreases aliases.len(),
{
    if aliases.len() > 0 {
        let init = aliases.drop_last();
        let last = aliases.last();
        let prev = insert_aliases(m, init, name);
        lemma_insert_aliases(m, init, name);
        assert(insert_aliases(m, aliases, name) == prev.insert(last, name));
        assert forall|a: Seq<char>| aliases.contains(a) implies #[trigger] insert_aliases(m, aliases, name).dom().contains(a)
            && insert_aliases(m, aliases, name)[a] == name by {
            if a != last {
                let j = choose|j: int| 0 <= j < aliases.len() && aliases[j] == a;
                assert(j < aliases.len() - 1);
                assert(init[j] == a);
                assert(init.contains(a));
            }
        }
        assert forall|a: Seq<char>| !aliases.contains(a) implies (#[trigger] insert_aliases(m, aliases, name).dom().contains(a)
            == m.dom().contains(a)) && (m.dom().contains(a) ==> insert_aliases(m, aliases, name)[a] == m[a]) by {
            assert(a != last) by {
                assert(aliases[aliases.len() - 1] == last);
            }
            assert(!init.contains(a)) by {
                if init.contains(a) {
                    let j = choose|j: int| 0 <= j < init.len() && init[j] == a;
                    assert(aliases[j] == a);
                }
            }
        }
    } else {
        assert forall|a: Seq<char>| !aliases.contains(a) by {}
    }
}

fn contains_str(list: &[String], s: &str) -> (r: bool)
    ensures
        r == views(list@).contains(s@),
{
    let mut i: usize = 0;
    while i < list.len()
        invariant
            i <= list@.len(),
            forall|j: int| 0 <= j < i ==> list@[j]@ != s@,
        decreases list.len() - i,
    {
        if str_eq(list[i].as_str(), s) {
            assert(views(list@)[i as int] == s@);
            return true;
        }
        i = i + 1;
    }
    assert(!views(list@).contains(s@)) by {
        if views(list@).contains(s@) {
            let j = choose|j: int| 0 <= j < views(list@).len() && views(list@)[j] == s@;
            assert(list@[j]@ == s@);
        }
    }
    false
}

/// Registry of tools, found by name or alias.
pub struct ToolRegistry<T: Tool> {
    tools: Vec<T>,
    aliases: Vec<(String, String)>,
}

impl<T: Tool> ToolRegistry<T> {
    /// The registry's internal invariant: no name or alias is held twice.
    pub closed spec fn wf(&self) -> bool {
        &&& unique_keys(self.tools@, tool_key::<T>())
        &&& unique_keys(self.aliases@, alias_key())
    }

    /// The registered tools, in the order they were first registered.
    pub closed spec fn tool_seq(&self) -> Seq<T> {
        self.tools@
    }

    /// The registered tools by name.
    pub closed spec fn tools_view(&self) -> Map<Seq<char>, T> {
        keyed_map(self.tools@, tool_key::<T>())
    }

    /// The aliases, each with the name it leads to.
    pub closed spec fn aliases_view(&self) -> Map<Seq<char>, Seq<char>> {
        Map::new(
            |k: Seq<char>| has_key(self.aliases@, alias_key(), k),
            |k: Seq<char>| self.aliases@[key_index(self.aliases@, alias_key(), k)].1@,
        )
    }

    /// Law: the tools by name are the registered tools, one per name.
    pub proof fn lemma_tools_view(&self)
        requires
            self.wf(),
        ensures
            forall|i: int| 0 <= i < self.tool_seq().len() ==> self.tools_view().dom().contains(
                #[trigger] self.tool_seq()[i].spec_name(),
            ) && self.tools_view()[self.tool_seq()[i].spec_name()] == self.tool_seq()[i],
            forall|k: Seq<char>| #[trigger] self.tools_view().dom().contains(k) ==> exists|i: int|
                0 <= i < self.tool_seq().len() && self.tool_seq()[i].spec_name() == k,
    {
        assert forall|i: int| 0 <= i < self.tool_seq().len() implies self.tools_view().dom().contains(
            #[trigger] self.tool_seq()[i].spec_name(),
        ) && self.tools_view()[self.tool_seq()[i].spec_name()] == self.tool_seq()[i] by {
            lemma_keyed_index(self.tools@, tool_key::<T>(), self.tools@[i].spec_name(), i);
        }
        assert forall|k: Seq<char>| #[trigger] self.tools_view().dom().contains(k) implies exists|i: int|
            0 <= i < self.tool_seq().len() && self.tool_seq()[i].spec_name() == k by {
            let i = choose|i: int| 0 <= i < self.tools@.len() && (tool_key::<T>())(self.tools@[i]) == k;
            assert(self.tool_seq()[i].spec_name() == k);
        }
    }

    /// An empty registry.
    pub fn new() -> (r: Self)
        ensures
            r.wf(),
            r.tool_seq() == Seq::<T>::empty(),
            r.tools_view() == Map::<Seq<char>, T>::empty(),
            r.aliases_view() == Map::<Seq<char>, Seq<char>>::empty(),
    {
        let r = ToolRegistry { tools: Vec::new(), aliases: Vec::new() };
        assert(r.tools_view() =~= Map::<Seq<char>, T>::empty());
        assert(r.aliases_view() =~= Map::<Seq<char>, Seq<char>>::empty());
        r
    }

    fn find_tool(&self, name: &str) -> (r: Option<usize>)
        ensures
            match r {
                Some(i) => i < self.tools@.len() && self.tools@[i as int].spec_name() == name@,
                None => !has_key(self.tools@, tool_key::<T>(), name@),
            },
    {
        let mut i: usize = 0;
        while i < self.tools.len()
            invariant
                i <= self.tools@.len(),
                forall|j: int| 0 <= j < i ==> self.tools@[j].spec_name() != name@,
            decreases self.tools.len() - i,
        {
            if str_eq(self.tools[i].name(), name) {
                return Some(i);
            }
            i = i + 1;
        }
        None
    }

    fn find_alias(&self, alias: &str) -> (r: Option<usize>)
        ensures
            match r {
                Some(i) => i < self.aliases@.len() && self.aliases@[i as int].0@ == alias@,
                None => !has_key(self.aliases@, alias_key(), alias@),
            },
    {
        let mut i: usize = 0;
        while i < self.aliases.len()
            invariant
                i <= self.aliases@.len(),
                forall|j: int| 0 <= j < i ==> self.aliases@[j].0@ != alias@,
            decreases self.aliases.len() - i,
        {
            if str_eq(self.aliases[i].0.as_str(), alias) {
                return Some(i);
            }
            i = i + 1;
        }
        None
    }

    /// The tool found under `name` (see `lookup`).
    pub closed spec fn lookup_in(&self, name: Seq<char>) -> Option<T> {
        lookup(self.tools_view(), self.aliases_view(), name)
    }

    /// The position of the tool named `name`.
    pub closed spec fn index_of(&self, name: Seq<char>) -> int {
        key_index(self.tools@, tool_key::<T>(), name)
    }

    /// Adds a tool under its name, replacing any tool of that name, and
    /// makes each of its aliases lead to it.
    pub fn register(&mut self, tool: T)
        requires
            old(self).wf(),
        ensures
            final(self).wf(),
            final(self).tools_view() == old(self).tools_view().insert(tool.spec_name(), tool),
            final(self).aliases_view() == insert_aliases(
                old(self).aliases_view(),
                tool.spec_aliases(),
                tool.spec_name(),
            ),
            final(self).tool_seq() == if old(self).tools_view().dom().contains(tool.spec_name()) {
                old(self).tool_seq().update(old(self).index_of(tool.spec_name()), tool)
            } else {
                old(self).tool_seq().push(tool)
            },
            final(self).lookup_in(tool.spec_name()) == Some(tool),
            forall|a: Seq<char>| #[trigger] tool.spec_aliases().contains(a) && !final(self).tools_view().dom().contains(a)
                ==> final(self).lookup_in(a) == Some(tool),
    {
        let ghost t = tool;
        let ghost s = self.tools@;
        let name = owned(tool.name());
        let aliases = tool.aliases();
        match self.find_tool(name.as_str()) {
            Some(i) => {
                proof {
                    lemma_keyed_index(s, tool_key::<T>(), t.spec_name(), i as int);
                    lemma_keyed_update(s, tool_key::<T>(), i as int, t);
                }
                self.tools.set(i, tool);
                proof {
                    assert(old(self).tools_view().dom().contains(t.spec_name()));
                    assert(old(self).index_of(t.spec_name()) == i);
                }
            },
            None => {
                proof {
                    lemma_keyed_push(s, tool_key::<T>(), t);
                    assert(!old(self).tools_view().dom().contains(t.spec_name()));
                }
                self.tools.push(tool);
            },
        }
        let ghost after = self.tools@;
        let ghost mid = self.aliases_view();
        let mut i: usize = 0;
        while i < aliases.len()
            invariant
                self.wf(),
                self.tools@ == after,
                name@ == t.spec_name(),
                views(aliases@) == t.spec_aliases(),
                i <= aliases@.len(),
                self.aliases_view() == insert_aliases(mid, views(aliases@).take(i as int), name@),
                self.tools_view() == keyed_map(s, tool_key::<T>()).insert(t.spec_name(), t),
            decreases aliases.len() - i,
        {
            let ghost before = self.aliases_view();
            self.set_alias(aliases[i].clone(), name.clone());
            proof {
                assert(views(aliases@).take(i + 1).drop_last() =~= views(aliases@).take(i as int));
                assert(views(aliases@).take(i + 1).last() == aliases@[i as int]@);
            }
            i = i + 1;
        }
        proof {
            assert(views(aliases@).take(i as int) =~= t.spec_aliases());
            lemma_insert_aliases(mid, t.spec_aliases(), t.spec_name());
            assert(self.tools_view().dom().contains(t.spec_name()));
            assert(self.lookup_in(t.spec_name()) == Some(t));
            assert forall|a: Seq<char>| #[trigger] t.spec_aliases().contains(a) && !self.tools_view().dom().contains(a)
                implies self.lookup_in(a) == Some(t) by {
                assert(self.aliases_view().dom().contains(a));
                assert(self.aliases_view()[a] == t.spec_name());
            }
        }
    }

    /// Law: no two registered tools share a name.
    pub proof fn lemma_names_distinct(&self)
        requires
            self.wf(),
        ensures
            names_of(self.tool_seq()).no_duplicates(),
    {
        assert forall|i: int, j: int| 0 <= i < names_of(self.tool_seq()).len() && 0 <= j < names_of(self.tool_seq()).len()
            && i != j implies names_of(self.tool_seq())[i] != names_of(self.tool_seq())[j] by {
            assert((tool_key::<T>())(self.tools@[i]) != (tool_key::<T>())(self.tools@[j]));
        }
    }

    /// Law: every tool is found under its own name.
    pub proof fn lemma_view_names(&self)
        requires
            self.wf(),
        ensures
            forall|k: Seq<char>| #[trigger] self.tools_view().dom().contains(k) ==> self.tools_view()[k].spec_name() == k,
    {
        self.lemma_tools_view();
        assert forall|k: Seq<char>| #[trigger] self.tools_view().dom().contains(k) implies self.tools_view()[k].spec_name()
            == k by {
            let i = choose|i: int| 0 <= i < self.tool_seq().len() && self.tool_seq()[i].spec_name() == k;
            assert(self.tools_view()[self.tool_seq()[i].spec_name()] == self.tool_seq()[i]);
        }
    }

    /// Registers the tools one after the other.
    pub fn register_all(&mut self, tools: Vec<T>)
        requires
            old(self).wf(),
        ensures
            final(self).wf(),
            forall|k: Seq<char>| #[trigger] final(self).tools_view().dom().contains(k) <==> (old(self).tools_view().dom().contains(k)
                || tools@.map_values(|t: T| t.spec_name()).contains(k)),
            final(self).aliases_view() == alias_fold(old(self).aliases_view(), entries_of(tools@)),
            (names_of(old(self).tool_seq()) + names_of(tools@)).no_duplicates()
                ==> final(self).tool_seq() == old(self).tool_seq() + tools@,
    {
        let ghost all = tools@;
        let ghost distinct = (names_of(old(self).tool_seq()) + names_of(all)).no_duplicates();
        proof {
            old(self).lemma_tools_view();
            assert(old(self).tool_seq() + all.take(0) =~= old(self).tool_seq());
            assert forall|k: Seq<char>| #[trigger] old(self).tools_view().dom().contains(k) implies names_of(
                old(self).tool_seq(),
            ).contains(k) by {
                let j = choose|j: int| 0 <= j < old(self).tool_seq().len() && old(self).tool_seq()[j].spec_name() == k;
                assert(names_of(old(self).tool_seq())[j] == k);
            }
        }
        let total = tools.len();
        let mut rest = tools;
        let mut i: usize = 0;
        while rest.len() > 0
            invariant
                self.wf(),
                all.len() == total,
                i <= all.len(),
                rest@ == all.skip(i as int),
                forall|k: Seq<char>| #[trigger] self.tools_view().dom().contains(k) <==> (old(self).tools_view().dom().contains(k)
                    || all.take(i as int).map_values(|t: T| t.spec_name()).contains(k)),
                self.aliases_view() == alias_fold(old(self).aliases_view(), entries_of(all.take(i as int))),
                distinct == (names_of(old(self).tool_seq()) + names_of(all)).no_duplicates(),
                distinct ==> self.tool_seq() == old(self).tool_seq() + all.take(i as int),
                forall|k: Seq<char>| #[trigger] old(self).tools_view().dom().contains(k) ==> names_of(old(self).tool_seq()).contains(k),
            decreases rest.len(),
        {
            let tool = rest.remove(0);
            proof {
                assert(tool == all[i as int]);
                if distinct {
                    let n = tool.spec_name();
                    let olds = names_of(old(self).tool_seq());
                    let both = olds + names_of(all);
                    assert(both[olds.len() + i] == n);
                    assert(!old(self).tools_view().dom().contains(n)) by {
                        if old(self).tools_view().dom().contains(n) {
                            let j = choose|j: int| 0 <= j < olds.len() && olds[j] == n;
                            assert(both[j] == n);
                        }
                    }
                    assert(!all.take(i as int).map_values(|t: T| t.spec_name()).contains(n)) by {
                        let names = all.take(i as int).map_values(|t: T| t.spec_name());
                        if names.contains(n) {
                            let j = choose|j: int| 0 <= j < names.len() && names[j] == n;
                            assert(both[olds.len() + j] == n);
                        }
                    }
                    assert(!self.tools_view().dom().contains(n));
                }
            }
            let ghost before = self.tools_view();
            let ghost names = all.take(i as int).map_values(|t: T| t.spec_name());
            self.register(tool);
            proof {
                assert(all.take(i + 1) =~= all.take(i as int).push(tool));
                assert(entries_of(all.take(i + 1)).drop_last() =~= entries_of(all.take(i as int)));
                let names2 = all.take(i + 1).map_values(|t: T| t.spec_name());
                assert(names2 =~= names.push(tool.spec_name()));
                assert forall|k: Seq<char>| #[trigger] self.tools_view().dom().contains(k) <==> (old(self).tools_view().dom().contains(k)
                    || names2.contains(k)) by {
                    assert(self.tools_view().dom().contains(k) == (before.dom().contains(k) || k == tool.spec_name()));
                    assert(before.dom().contains(k) <==> (old(self).tools_view().dom().contains(k) || names.contains(k)));
                    if k == tool.spec_name() {
                        assert(names2[names.len() as int] == k);
                    }
                    if names2.contains(k) && k != tool.spec_name() {
                        let j = choose|j: int| 0 <= j < names2.len() && names2[j] == k;
                        assert(names[j] == k);
                    }
                    if names.contains(k) {
                        let j = choose|j: int| 0 <= j < names.len() && names[j] == k;
                        assert(names2[j] == k);
                    }
                }
                assert(rest@ =~= all.skip(i + 1));
                if distinct {
                    assert(self.tool_seq() =~= old(self).tool_seq() + all.take(i + 1));
                }
            }
            i = i + 1;
        }
        proof {
            assert(all.take(i as int) =~= all);
        }
    }

    /// The tool registered under `name`, or else the tool that the alias
    /// `name` leads to.
    pub fn get(&self, name: &str) -> (r: Option<&T>)
        requires
            self.wf(),
        ensures
            match r {
                Some(t) => self.lookup_in(name@) == Some(*t),
                None => self.lookup_in(name@) is None,
            },
    {
        match self.find_tool(name) {
            Some(i) => {
                proof {
                    lemma_keyed_index(self.tools@, tool_key::<T>(), name@, i as int);
                }
                Some(&self.tools[i])
            },
            None => {
                match self.find_alias(name) {
                    Some(j) => {
                        proof {
                            lemma_keyed_index(self.aliases@, alias_key(), name@, j as int);
                        }
                        let target = self.aliases[j].1.as_str();
                        match self.find_tool(target) {
                            Some(k) => {
                                proof {
                                    lemma_keyed_index(self.tools@, tool_key::<T>(), target@, k as int);
                                }
                                Some(&self.tools[k])
                            },
                            None => None,
                        }
                    },
                    None => None,
                }
            },
        }
    }

    /// All registered tools, in the order they were first registered.
    pub fn get_all(&self) -> (r: Vec<&T>)
        ensures
            derefs(r@) == self.tool_seq(),
    {
        let mut r: Vec<&T> = Vec::new();
        let mut i: usize = 0;
        while i < self.tools.len()
            invariant
                i <= self.tools@.len(),
                r@.len() == i,
                derefs(r@) == self.tools@.take(i as int),
            decreases self.tools.len() - i,
        {
            let ghost prev = r@;
            r.push(&self.tools[i]);
            assert(derefs(r@) =~= derefs(prev).push(self.tools@[i as int]));
            assert(derefs(r@) =~= self.tools@.take(i + 1));
            i = i + 1;
        }
        assert(self.tools@.take(i as int) =~= self.tools@);
        r
    }

    /// The names of all registered tools, in registration order.
    pub fn names(&self) -> (r: Vec<String>)
        ensures
            views(r@) == self.tool_seq().map_values(|t: T| t.spec_name()),
    {
        let mut r: Vec<String> = Vec::new();
        let mut i: usize = 0;
        while i < self.tools.len()
            invariant
                i <= self.tools@.len(),
                r@.len() == i,
                views(r@) == self.tools@.take(i as int).map_values(|t: T| t.spec_name()),
            decreases self.tools.len() - i,
        {
            let ghost prev = r@;
            r.push(owned(self.tools[i].name()));
            assert(views(r@) =~= views(prev).push(self.tools@[i as int].spec_name()));
            assert(views(r@) =~= self.tools@.take(i + 1).map_values(|t: T| t.spec_name()));
            i = i + 1;
        }
        assert(self.tools@.take(i as int) =~= self.tools@);
        r
    }

    /// The tools that the allow and deny lists let through (see
    /// `permitted`), in registration order.
    pub fn filter(&self, allowed: &[String], denied: &[String]) -> (r: Vec<&T>)
        ensures
            derefs(r@) == filtered(self.tool_seq(), views(allowed@), views(denied@)),
            self.wf() ==> names_of(derefs(r@)).no_duplicates(),
    {
        proof {
            if self.wf() {
                self.lemma_names_distinct();
                lemma_filtered_names_distinct(self.tool_seq(), views(allowed@), views(denied@));
            }
        }
        let ghost pred = |t: T| permitted(t.spec_name(), views(allowed@), views(denied@));
        let mut r: Vec<&T> = Vec::new();
        let mut i: usize = 0;
        let deny_all = contains_str(denied, "*");
        let allow_all = allowed.len() == 0 || contains_str(allowed, "*");
        while i < self.tools.len()
            invariant
                i <= self.tools@.len(),
                deny_all == views(denied@).contains("*"@),
                allow_all == (views(allowed@).len() == 0 || views(allowed@).contains("*"@)),
                pred == (|t: T| permitted(t.spec_name(), views(allowed@), views(denied@))),
                derefs(r@) == self.tools@.take(i as int).filter(pred),
            decreases self.tools.len() - i,
        {
            let t = &self.tools[i];
            let name = t.name();
            let keep = !deny_all && !contains_str(denied, name) && (allow_all || contains_str(allowed, name));
            proof {
                reveal(Seq::filter);
                assert(self.tools@.take(i + 1).drop_last() =~= self.tools@.take(i as int));
                assert(keep == pred(self.tools@[i as int]));
            }
            if keep {
                let ghost prev = r@;
                r.push(t);
                assert(derefs(r@) =~= derefs(prev).push(*t));
            }
            i = i + 1;
        }
        assert(self.tools@.take(i as int) =~= self.tools@);
        r
    }

    /// Makes `alias` lead to `name`.
    fn set_alias(&mut self, alias: String, name: String)
        requires
            old(self).wf(),
        ensures
            final(self).wf(),
            final(self).tools@ == old(self).tools@,
            final(self).aliases_view() == old(self).aliases_view().insert(alias@, name@),
    {
        let ghost s = self.aliases@;
        let ghost a = alias@;
        let ghost n = name@;
        let entry = (alias, name);
        match self.find_alias(entry.0.as_str()) {
            Some(i) => {
                proof {
                    lemma_keyed_update(s, alias_key(), i as int, entry);
                }
                self.aliases.set(i, entry);
                proof {
                    let t = self.aliases@;
                    assert(t == s.update(i as int, entry));
                    assert forall|k: Seq<char>| #[trigger] self.aliases_view().dom().contains(k) implies self.aliases_view()[k]
                        == old(self).aliases_view().insert(a, n)[k] by {
                        assert(keyed_map(t, alias_key()).dom().contains(k));
                        if k != a {
                            assert(keyed_map(s, alias_key()).dom().contains(k));
                        }
                    }
                    assert forall|k: Seq<char>| #[trigger] self.aliases_view().dom().contains(k) <==> old(self).aliases_view().insert(a, n).dom().contains(k) by {
                        assert(keyed_map(t, alias_key()).dom().contains(k) <==> has_key(t, alias_key(), k));
                        assert(keyed_map(s, alias_key()).dom().contains(k) <==> has_key(s, alias_key(), k));
                    }
                    assert(self.aliases_view() =~= old(self).aliases_view().insert(a, n));
                }
            },
            None => {
                proof {
                    lemma_keyed_push(s, alias_key(), entry);
                }
                self.aliases.push(entry);
                proof {
                    let t = self.aliases@;
                    assert forall|k: Seq<char>| #[trigger] self.aliases_view().dom().contains(k) implies self.aliases_view()[k]
                        == old(self).aliases_view().insert(a, n)[k] by {
                        assert(keyed_map(t, alias_key()).dom().contains(k));
                        if k != a {
                            assert(keyed_map(s, alias_key()).dom().contains(k));
                        }
                    }
                    assert forall|k: Seq<char>| #[trigger] self.aliases_view().dom().contains(k) <==> old(self).aliases_view().insert(a, n).dom().contains(k) by {
                        assert(keyed_map(t, alias_key()).dom().contains(k) <==> has_key(t, alias_key(), k));
                        assert(keyed_map(s, alias_key()).dom().contains(k) <==> has_key(s, alias_key(), k));
                    }
                    assert(self.aliases_view() =~= old(self).aliases_view().insert(a, n));
                }
            },
        }
    }
}

impl ToolRegistry<BuiltinTool> {
    /// A registry of all built-in tools; the task tool keeps its tasks
    /// under `tasks_dir`, and the remote-trigger tool works with accounts of
    /// `account_site`.
    pub fn register_builtins(tasks_dir: std::path::PathBuf, account_site: String) -> (r: Self)
        ensures
            r.wf(),
            forall|k: Seq<char>| #[trigger] r.tools_view().dom().contains(k) <==> builtin_entries().map_values(
                |e: (Seq<Seq<char>>, Seq<char>)| e.1).contains(k),
            forall|k: Seq<char>| #[trigger] r.tools_view().dom().contains(k) ==> r.tools_view()[k].spec_name() == k,
            r.aliases_view() == alias_fold(Map::empty(), builtin_entries()),
            names_of(r.tool_seq()) == builtin_names(),
            builtin_names().no_duplicates(),
    {
        let mut registry = ToolRegistry::new();
        let tools = builtin_tools(tasks_dir, account_site);
        let ghost all = tools@;
        proof {
            lemma_builtin_names_distinct();
            assert(names_of(all) =~= builtin_names());
            assert(names_of(registry.tool_seq()) + names_of(all) =~= names_of(all));
        }
        registry.register_all(tools);
        proof {
            assert(registry.tool_seq() =~= all);
            registry.lemma_view_names();
            assert(all.map_values(|t: BuiltinTool| t.spec_name()) =~= builtin_entries().map_values(
                |e: (Seq<Seq<char>>, Seq<char>)| e.1));
        }
        registry
    }
}

impl<T: Tool> Default for ToolRegistry<T> {
    fn default() -> (r: Self)
        ensures
            r.wf(),
            r.tool_seq() == Seq::<T>::empty(),
    {
        ToolRegistry::new()
    }
}

/// Law: denying "*" lets no tool through.
pub proof fn lemma_filter_deny_all<T: Tool>(tools: Seq<T>, allowed: Seq<Seq<char>>, denied: Seq<Seq<char>>)
    requires
        denied.contains("*"@),
    ensures
        filtered(tools, allowed, denied).len() == 0,
{
    let pred = |t: T| permitted(t.spec_name(), allowed, denied);
    if filtered(tools, allowed, denied).len() > 0 {
        tools.lemma_filter_pred(pred, 0);
    }
}

/// Law: allowing "*" (or nothing in particular) and denying nothing lets
/// every tool through.
pub proof fn lemma_filter_allow_all<T: Tool>(tools: Seq<T>, allowed: Seq<Seq<char>>)
    requires
        allowed.len() == 0 || allowed.contains("*"@),
    ensures
        filtered(tools, allowed, seq![]) == tools,
    decreases tools.len(),
{
    reveal(Seq::filter);
    if tools.len() > 0 {
        lemma_filter_allow_all(tools.drop_last(), allowed);
        assert(tools.drop_last().push(tools.last()) =~= tools);
    }
}

/// Law: a tool that the lists let through is registered, and is let
/// through by name.
pub proof fn lemma_filter_sound<T: Tool>(tools: Seq<T>, allowed: Seq<Seq<char>>, denied: Seq<Seq<char>>, i: int)
    requires
        0 <= i < filtered(tools, allowed, denied).len(),
    ensures
        tools.contains(filtered(tools, allowed, denied)[i]),
        permitted(filtered(tools, allowed, denied)[i].spec_name(), allowed, denied),
{
    let pred = |t: T| permitted(t.spec_name(), allowed, denied);
    let f = tools.filter(pred);
    tools.lemma_filter_pred(pred, i);
    assert(f.contains(f[i]));
    tools.lemma_filter_contains_rev(pred, f[i]);
}

/// Law: the tools that the lists let through have distinct names when
/// the tools they are taken from do (as a registry's tools always do, see
/// `ToolRegistry::lemma_names_distinct`).
pub proof fn lemma_filtered_names_distinct<T: Tool>(tools: Seq<T>, allowed: Seq<Seq<char>>, denied: Seq<Seq<char>>)
    requires
        names_of(tools).no_duplicates(),
    ensures
        names_of(filtered(tools, allowed, denied)).no_duplicates(),
    decreases tools.len(),
{
    reveal(Seq::filter);
    if tools.len() > 0 {
        let init = tools.drop_last();
        let x = tools.last();
        assert(names_of(init).no_duplicates()) by {
            assert forall|i: int, j: int| 0 <= i < names_of(init).len() && 0 <= j < names_of(init).len() && i != j
                implies names_of(init)[i] != names_of(init)[j] by {
                assert(names_of(init)[i] == names_of(tools)[i]);
                assert(names_of(init)[j] == names_of(tools)[j]);
            }
        }
        lemma_filtered_names_distinct(init, allowed, denied);
        let pred = |t: T| permitted(t.spec_name(), allowed, denied);
        let p = filtered(init, allowed, denied);
        assert(tools.filter(pred) == if pred(x) { init.filter(pred).push(x) } else { init.filter(pred) });
        if pred(x) {
            let q = names_of(p.push(x));
            assert forall|i: int, j: int| 0 <= i < q.len() && 0 <= j < q.len() && i != j implies q[i] != q[j] by {
                if i < p.len() && j < p.len() {
                    assert(q[i] == names_of(p)[i] && q[j] == names_of(p)[j]);
                } else {
                    let k = if i < p.len() { i } else { j };
                    assert(k < p.len());
                    assert(init.filter(pred).contains(p[k]));
                    init.lemma_filter_contains_rev(pred, p[k]);
                    let m = choose|m: int| 0 <= m < init.len() && init[m] == p[k];
                    assert(names_of(tools)[m] == p[k].spec_name());
                    assert(names_of(tools)[tools.len() - 1] == x.spec_name());
                }
            }
        }
    }
}

} // verus!
