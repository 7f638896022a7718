//! The registry of collectors and commands, by name.

use vstd::prelude::*;
use crate::collector::{Collector, Error};
use crate::command::Command;
use crate::discovery::Discovery;
use crate::order::{lemma_lt_irreflexive, lemma_lt_total, lemma_lt_transitive, name_less, name_lt};

verus! {

/// Entries keyed by the view of their name.
pub open spec fn keyed<T>(s: Seq<(String, T)>) -> Seq<(Seq<char>, T)> {
    s.map_values(|e: (String, T)| (e.0@, e.1))
}

/// The names of keyed entries, in order.
pub open spec fn names_of<T>(s: Seq<(Seq<char>, T)>) -> Seq<Seq<char>> {
    s.map_values(|e: (Seq<char>, T)| e.0)
}

/// No two entries share a name.
pub open spec fn unique_names<T>(s: Seq<(Seq<char>, T)>) -> bool {
    forall|i: int, j: int| 0 <= i < s.len() && 0 <= j < s.len() && i != j ==> s[i].0 != s[j].0
}

/// Some entry is named `name`.
pub open spec fn has_name<T>(s: Seq<(Seq<char>, T)>, name: Seq<char>) -> bool {
    exists|i: int| 0 <= i < s.len() && s[i].0 == name
}

/// The index of the entry named `name`.
pub open spec fn index_of<T>(s: Seq<(Seq<char>, T)>, name: Seq<char>) -> int {
    choose|i: int| 0 <= i < s.len() && s[i].0 == name
}

/// The entries are in ascending order of their names, so no two share one.
pub open spec fn sorted<T>(s: Seq<(Seq<char>, T)>) -> bool {
    forall|i: int, j: int| 0 <= i < j < s.len() ==> name_lt(#[trigger] s[i].0, #[trigger] s[j].0)
}

/// How many of the leading entries come before `name`.
pub open spec fn rank<T>(s: Seq<(Seq<char>, T)>, name: Seq<char>) -> int
    decreases s.len(),
{
    if s.len() == 0 {
        0
    } else if name_lt(s[0].0, name) {
        1 + rank(s.drop_first(), name)
    } else {
        0
    }
}

/// The entry named `name` replaced by `value`, or `(name, value)` inserted
/// at its place in the order where there is none.
pub open spec fn put<T>(s: Seq<(Seq<char>, T)>, name: Seq<char>, value: T) -> Seq<(Seq<char>, T)> {
    if has_name(s, name) {
        s.update(index_of(s, name), (name, value))
    } else {
        s.insert(rank(s, name), (name, value))
    }
}

/// Sorted entries have unique names.
pub proof fn lemma_sorted_unique<T>(s: Seq<(Seq<char>, T)>)
    requires
        sorted(s),
    ensures
        unique_names(s),
{
    assert forall|i: int, j: int| 0 <= i < s.len() && 0 <= j < s.len() && i != j implies s[i].0 != s[j].0 by {
        if i < j {
            assert(name_lt(s[i].0, s[j].0));
            lemma_lt_irreflexive(s[i].0);
        } else {
            assert(name_lt(s[j].0, s[i].0));
            lemma_lt_irreflexive(s[j].0);
        }
    }
}

proof fn lemma_rank<T>(s: Seq<(Seq<char>, T)>, name: Seq<char>, i: int)
    requires
        0 <= i <= s.len(),
        forall|j: int| 0 <= j < i ==> name_lt(#[trigger] s[j].0, name),
        i < s.len() ==> !name_lt(s[i].0, name),
    ensures
        rank(s, name) == i,
    decreases i,
{
    if i > 0 {
        assert(name_lt(s[0].0, name));
        let t = s.drop_first();
        assert forall|j: int| 0 <= j < i - 1 implies name_lt(#[trigger] t[j].0, name) by {
            assert(t[j] == s[j + 1]);
        }
        if i < s.len() {
            assert(t[i - 1] == s[i]);
        }
        lemma_rank(t, name, i - 1);
    }
}

/// `items` put in order.
pub open spec fn put_all<T>(s: Seq<(Seq<char>, T)>, items: Seq<(Seq<char>, T)>) -> Seq<(Seq<char>, T)>
    decreases items.len(),
{
    if items.len() == 0 {
        s
    } else {
        put_all(put(s, items[0].0, items[0].1), items.skip(1))
    }
}

/// Gathering the answers of the collectors `names` in order, up to the
/// first failure: all snapshots under their names, or the first failure.
pub open spec fn gathered<V>(names: Seq<Seq<char>>, answers: Seq<Result<V, Seq<char>>>) -> Result<Seq<(Seq<char>, V)>, Seq<char>>
    decreases answers.len(),
{
    if answers.len() == 0 {
        Ok(Seq::empty())
    } else {
        let n = answers.len() - 1;
        match gathered(names, answers.take(n)) {
            Err(m) => Err(m),
            Ok(acc) => match answers[n] {
                Ok(v) => Ok(acc.push((names[n], v))),
                Err(m) => Err(m),
            },
        }
    }
}

/// Answers with their messages as characters.
pub open spec fn answer_views<V>(s: Seq<Result<V, String>>) -> Seq<Result<V, Seq<char>>> {
    s.map_values(|a: Result<V, String>| match a {
        Ok(v) => Ok(v),
        Err(m) => Err(m@),
    })
}

/// `answers` are what the collectors `cs` gave when called in order up to
/// the first failure: each is an answer its collector may give, all but
/// the last are snapshots, and calling stopped early only at a failure.
pub open spec fn called_in_order<C: Collector>(cs: Seq<(Seq<char>, C)>, answers: Seq<Result<C::Snapshot, String>>) -> bool {
    &&& answers.len() <= cs.len()
    &&& forall|i: int| 0 <= i < answers.len() ==> cs[i].1.answered(#[trigger] answers[i])
    &&& forall|i: int| 0 <= i < answers.len() - 1 ==> (#[trigger] answers[i]) is Ok
    &&& answers.len() < cs.len() ==> answers.len() > 0 && answers.last() is Err
}

pub open spec fn gathered_view<V>(r: Result<Vec<(String, V)>, Error>) -> Result<Seq<(Seq<char>, V)>, Seq<char>> {
    match r {
        Ok(v) => Ok(keyed(v@)),
        Err(Error::Collector(m)) => Err(m@),
    }
}

/// Index of the entry named `name`.
fn position<T>(entries: &Vec<(String, T)>, name: &str) -> (r: Option<usize>)
    requires
        sorted(keyed(entries@)),
    ensures
        match r {
            Some(i) => i < entries@.len() && has_name(keyed(entries@), name@) && i == index_of(keyed(entries@), name@),
            None => !has_name(keyed(entries@), name@),
        },
{
    let key = String::from_str(name);
    let ghost s = keyed(entries@);
    proof {
        lemma_sorted_unique(s);
    }
    let mut i: usize = 0;
    while i < entries.len()
        invariant
            i <= entries@.len(),
            s == keyed(entries@),
            unique_names(s),
            key@ == name@,
            forall|j: int| 0 <= j < i ==> s[j].0 != name@,
        decreases entries@.len() - i,
    {
        if entries[i].0 == key {
            assert(s[i as int].0 == name@);
            assert(has_name(s, name@));
            let ghost k = index_of(s, name@);
            assert(0 <= k < s.len() && s[k].0 == name@);
            assert(k == i) by {
                if k != i {
                    assert(s[k].0 != s[i as int].0);
                }
            }
            return Some(i);
        }
        i = i + 1;
    }
    None
}

/// Index of the first entry that does not come before `name`.
fn first_not_before<T>(entries: &Vec<(String, T)>, name: &str) -> (r: usize)
    ensures
        r <= entries@.len(),
        forall|j: int| 0 <= j < r ==> name_lt(#[trigger] keyed(entries@)[j].0, name@),
        r < entries@.len() ==> !name_lt(keyed(entries@)[r as int].0, name@),
{
    let ghost s = keyed(entries@);
    let mut i: usize = 0;
    while i < entries.len()
        invariant
            i <= entries@.len(),
            s == keyed(entries@),
            forall|j: int| 0 <= j < i ==> name_lt(#[trigger] s[j].0, name@),
        decreases entries@.len() - i,
    {
        if !name_less(entries[i].0.as_str(), name) {
            return i;
        }
        i = i + 1;
    }
    i
}

/// Puts `(name, value)` into `entries`, replacing an entry of that name or
/// inserting it at its place in the order.
fn put_entry<T>(entries: &mut Vec<(String, T)>, name: &str, value: T)
    requires
        sorted(keyed(old(entries)@)),
    ensures
        keyed(final(entries)@) == put(keyed(old(entries)@), name@, value),
        sorted(keyed(final(entries)@)),
{
    let ghost s = keyed(entries@);
    let i = first_not_before(entries, name);
    proof {
        lemma_rank(s, name@, i as int);
        lemma_sorted_unique(s);
    }
    let key = String::from_str(name);
    if i < entries.len() && entries[i].0 == key {
        proof {
            assert(has_name(s, name@));
            let k = index_of(s, name@);
            assert(0 <= k < s.len() && s[k].0 == name@);
            if k != i {
                assert(s[k].0 != s[i as int].0);
            }
        }
        entries.set(i, (key, value));
        assert(keyed(entries@) =~= s.update(i as int, (name@, value)));
        assert forall|a: int, b: int| 0 <= a < b < keyed(entries@).len() implies name_lt(
            #[trigger] keyed(entries@)[a].0,
            #[trigger] keyed(entries@)[b].0,
        ) by {
            assert(keyed(entries@)[a].0 == s[a].0 && keyed(entries@)[b].0 == s[b].0);
        }
    } else {
        assert forall|k: int| 0 <= k < s.len() implies s[k].0 != name@ by {
            if k < i {
                assert(name_lt(s[k].0, name@));
                lemma_lt_irreflexive(name@);
            } else if k > i {
                assert(name_lt(s[i as int].0, s[k].0));
            }
        }
        entries.insert(i, (key, value));
        let ghost t = s.insert(i as int, (name@, value));
        assert(keyed(entries@) =~= t);
        proof {
            if i < s.len() {
                lemma_lt_total(s[i as int].0, name@);
            }
        }
        assert forall|a: int, b: int| 0 <= a < b < t.len() implies name_lt(#[trigger] t[a].0, #[trigger] t[b].0) by {
            if b < i {
                assert(t[a] == s[a] && t[b] == s[b]);
            } else if b == i {
                assert(t[a] == s[a]);
            } else if a < i {
                assert(t[a] == s[a] && t[b] == s[b - 1]);
            } else if a == i {
                assert(t[b] == s[b - 1]);
                if b - 1 > i {
                    assert(name_lt(s[i as int].0, s[b - 1].0));
                    lemma_lt_transitive(name@, s[i as int].0, s[b - 1].0);
                }
            } else {
                assert(t[a] == s[a - 1] && t[b] == s[b - 1]);
            }
        }
    }
}

/// The collectors and commands of an agent, each under a unique name.
pub struct Manager<C, K> {
    collectors: Vec<(String, C)>,
    commands: Vec<(String, K)>,
}

impl<C: Collector, K> Manager<C, K> {
    /// The collectors, in ascending order of their names.
    pub closed spec fn collectors(&self) -> Seq<(Seq<char>, C)> {
        keyed(self.collectors@)
    }

    /// The commands, in ascending order of their names.
    pub closed spec fn commands(&self) -> Seq<(Seq<char>, K)> {
        keyed(self.commands@)
    }

    /// The collectors, and the commands, are in ascending order of their
    /// names, which are therefore unique.
    pub open spec fn wf(&self) -> bool {
        sorted(self.collectors()) && sorted(self.commands())
    }

    /// A registry with nothing in it.
    pub fn new() -> (r: Self)
        ensures
            r.wf(),
            r.collectors() == Seq::<(Seq<char>, C)>::empty(),
            r.commands() == Seq::<(Seq<char>, K)>::empty(),
    {
        let r = Manager { collectors: Vec::new(), commands: Vec::new() };
        assert(r.collectors() =~= Seq::<(Seq<char>, C)>::empty());
        assert(r.commands() =~= Seq::<(Seq<char>, K)>::empty());
        r
    }

    /// Registers `collector` under `name`, replacing one of that name.
    pub fn register_collector(&mut self, name: &str, collector: C)
        requires
            old(self).wf(),
        ensures
            final(self).wf(),
            final(self).collectors() == put(old(self).collectors(), name@, collector),
            final(self).commands() == old(self).commands(),
    {
        put_entry(&mut self.collectors, name, collector);
    }

    /// Registers `collector` under `name`, replacing one of that name, and
    /// hands the registry back.
    pub fn register(self, name: &str, collector: C) -> (r: Self)
        requires
            self.wf(),
        ensures
            r.wf(),
            r.collectors() == put(self.collectors(), name@, collector),
            r.commands() == self.commands(),
    {
        let mut m = self;
        m.register_collector(name, collector);
        m
    }

    /// Registers each of `collectors` in order.
    pub fn extend_collectors(&mut self, collectors: Vec<(String, C)>)
        requires
            old(self).wf(),
        ensures
            final(self).wf(),
            final(self).collectors() == put_all(old(self).collectors(), keyed(collectors@)),
            final(self).commands() == old(self).commands(),
    {
        let mut items = collectors;
        let ghost target = put_all(old(self).collectors(), keyed(items@));
        while items.len() > 0
            invariant
                self.wf(),
                self.commands() == old(self).commands(),
                target == put_all(self.collectors(), keyed(items@)),
            decreases items@.len(),
        {
            let ghost rest = keyed(items@);
            let (name, c) = items.remove(0);
            assert(rest[0] == (name@, c));
            assert(keyed(items@) =~= rest.skip(1));
            self.register_collector(name.as_str(), c);
        }
        assert(keyed(items@) =~= Seq::<(Seq<char>, C)>::empty());
    }

    /// Registers `command` under `name`, replacing one of that name.
    pub fn register_command(&mut self, name: &str, command: K)
        requires
            old(self).wf(),
        ensures
            final(self).wf(),
            final(self).commands() == put(old(self).commands(), name@, command),
            final(self).collectors() == old(self).collectors(),
    {
        put_entry(&mut self.commands, name, command);
    }

    /// Registers each of `commands` in order.
    pub fn extend_commands(&mut self, commands: Vec<(String, K)>)
        requires
            old(self).wf(),
        ensures
            final(self).wf(),
            final(self).commands() == put_all(old(self).commands(), keyed(commands@)),
            final(self).collectors() == old(self).collectors(),
    {
        let mut items = commands;
        let ghost target = put_all(old(self).commands(), keyed(items@));
        while items.len() > 0
            invariant
                self.wf(),
                self.collectors() == old(self).collectors(),
                target == put_all(self.commands(), keyed(items@)),
            decreases items@.len(),
        {
            let ghost rest = keyed(items@);
            let (name, k) = items.remove(0);
            assert(rest[0] == (name@, k));
            assert(keyed(items@) =~= rest.skip(1));
            self.register_command(name.as_str(), k);
        }
        assert(keyed(items@) =~= Seq::<(Seq<char>, K)>::empty());
    }

    /// The collector named `name`, if there is one.
    pub fn collector(&self, name: &str) -> (r: Option<&C>)
        requires
            self.wf(),
        ensures
            match r {
                Some(c) => has_name(self.collectors(), name@) && *c == self.collectors()[index_of(self.collectors(), name@)].1,
                None => !has_name(self.collectors(), name@),
            },
    {
        match position(&self.collectors, name) {
            Some(i) => Some(&self.collectors[i].1),
            None => None,
        }
    }

    /// The command named `name`, if there is one.
    pub fn command(&self, name: &str) -> (r: Option<&K>)
        requires
            self.wf(),
        ensures
            match r {
                Some(k) => has_name(self.commands(), name@) && *k == self.commands()[index_of(self.commands(), name@)].1,
                None => !has_name(self.commands(), name@),
            },
    {
        match position(&self.commands, name) {
            Some(i) => Some(&self.commands[i].1),
            None => None,
        }
    }

    /// Collects from the collector named `name`: nothing where there is no
    /// such collector, its snapshot, or the collector error with its message.
    pub fn collect_one(&self, name: &str) -> (r: Result<Option<C::Snapshot>, Error>)
        requires
            self.wf(),
        ensures
            !has_name(self.collectors(), name@) <==> r matches Ok(None),
            has_name(self.collectors(), name@) ==> {
                let c = self.collectors()[index_of(self.collectors(), name@)].1;
                match r {
                    Ok(Some(v)) => c.answered(Ok(v)),
                    Err(Error::Collector(m)) => c.answered(Err(m)),
                    Ok(None) => false,
                }
            },
    {
        match self.collector(name) {
            Some(c) => match c.collect() {
                Ok(v) => Ok(Some(v)),
                Err(m) => Err(Error::Collector(m)),
            },
            None => Ok(None),
        }
    }

    /// Collects from every collector in ascending order of their names.
    /// Stops at the first failure and returns it as the collector error, with
    /// no partial result; otherwise returns every snapshot under its
    /// collector's name, in that order.
    pub fn collect_all(&self) -> (r: Result<Vec<(String, C::Snapshot)>, Error>)
        requires
            self.wf(),
        ensures
            exists|answers: Seq<Result<C::Snapshot, String>>|
                called_in_order(self.collectors(), answers)
                && gathered_view(r) == gathered(names_of(self.collectors()), answer_views(answers)),
            r matches Ok(v) ==> names_of(keyed(v@)) == names_of(self.collectors()) && sorted(keyed(v@)),
            self.collectors().len() == 0 ==> (r matches Ok(v) && v@.len() == 0),
    {
        let ghost cs = self.collectors();
        let ghost names = names_of(cs);
        let ghost mut answers: Seq<Result<C::Snapshot, String>> = Seq::empty();
        let mut result: Vec<(String, C::Snapshot)> = Vec::new();
        assert(keyed(result@) =~= Seq::<(Seq<char>, C::Snapshot)>::empty());
        let mut i: usize = 0;
        while i < self.collectors.len()
            invariant
                i <= self.collectors@.len(),
                cs == self.collectors(),
                names == names_of(cs),
                answers.len() == i,
                forall|j: int| 0 <= j < i ==> cs[j].1.answered(#[trigger] answers[j]),
                forall|j: int| 0 <= j < i ==> (#[trigger] answers[j]) is Ok,
                gathered(names, answer_views(answers)) == Ok::<Seq<(Seq<char>, C::Snapshot)>, Seq<char>>(keyed(result@)),
                names_of(keyed(result@)) =~= names.take(i as int),
            decreases self.collectors@.len() - i,
        {
            let entry = &self.collectors[i];
            let answer = entry.1.collect();
            assert(names[i as int] == entry.0@);
            assert(cs[i as int].1 == entry.1);
            let ghost prev = answers;
            proof {
                answers = answers.push(answer);
                assert(answer_views(answers).take(i as int) =~= answer_views(prev));
                assert(answers[i as int] == answer);
            }
            match answer {
                Ok(v) => {
                    let ghost before = keyed(result@);
                    result.push((entry.0.clone(), v));
                    assert(keyed(result@) =~= before.push((names[i as int], v)));
                    assert(names_of(keyed(result@)) =~= names_of(before).push(names[i as int]));
                    assert(names_of(keyed(result@)) =~= names.take(i as int + 1));
                },
                Err(m) => {
                    let r = Err(Error::Collector(m));
                    assert(called_in_order(cs, answers));
                    assert(gathered_view(r) == gathered(names, answer_views(answers)));
                    return r;
                },
            }
            i = i + 1;
        }
        assert(names.take(i as int) =~= names);
        assert(called_in_order(cs, answers));
        assert(sorted(keyed(result@))) by {
            assert forall|a: int, b: int| 0 <= a < b < keyed(result@).len() implies name_lt(
                #[trigger] keyed(result@)[a].0,
                #[trigger] keyed(result@)[b].0,
            ) by {
                assert(names_of(keyed(result@))[a] == cs[a].0);
                assert(names_of(keyed(result@))[b] == cs[b].0);
            }
        }
        Ok(result)
    }
}

impl<C: Collector, K: Command> Manager<C, K> {
    /// Each collector's name with the entities that it describes, in order.
    pub fn describe_collectors(&self) -> (r: Vec<(String, Vec<Discovery>)>)
        ensures
            r@.len() == self.collectors().len(),
            forall|i: int| 0 <= i < r@.len() ==> #[trigger] r@[i].0@ == self.collectors()[i].0
                && self.collectors()[i].1.described(r@[i].1),
    {
        let mut out: Vec<(String, Vec<Discovery>)> = Vec::new();
        let mut i: usize = 0;
        while i < self.collectors.len()
            invariant
                i <= self.collectors@.len(),
                out@.len() == i,
                forall|j: int| 0 <= j < i ==> #[trigger] out@[j].0@ == self.collectors()[j].0
                    && self.collectors()[j].1.described(out@[j].1),
            decreases self.collectors@.len() - i,
        {
            let entry = &self.collectors[i];
            out.push((entry.0.clone(), entry.1.describe_ha()));
            i = i + 1;
        }
        out
    }

    /// Each command's name with its button, if it has one, in order.
    pub fn describe_commands(&self) -> (r: Vec<(String, Option<Discovery>)>)
        ensures
            r@.len() == self.commands().len(),
            forall|i: int| 0 <= i < r@.len() ==> #[trigger] r@[i].0@ == self.commands()[i].0
                && self.commands()[i].1.described(r@[i].1),
    {
        let mut out: Vec<(String, Option<Discovery>)> = Vec::new();
        let mut i: usize = 0;
        while i < self.commands.len()
            invariant
                i <= self.commands@.len(),
                out@.len() == i,
                forall|j: int| 0 <= j < i ==> #[trigger] out@[j].0@ == self.commands()[j].0
                    && self.commands()[j].1.described(out@[j].1),
            decreases self.commands@.len() - i,
        {
            let entry = &self.commands[i];
            out.push((entry.0.clone(), entry.1.describe_ha()));
            i = i + 1;
        }
        out
    }
}

/// Gathering succeeds exactly when every answer is a snapshot, and then
/// holds one entry per collector, in order, each with its snapshot; when one
/// collector fails, the result is that single failure, the first one.
pub proof fn lemma_gathered_all_or_nothing<V>(names: Seq<Seq<char>>, answers: Seq<Result<V, Seq<char>>>)
    requires
        answers.len() <= names.len(),
    ensures
        (forall|i: int| 0 <= i < answers.len() ==> answers[i] is Ok) ==> {
            &&& gathered(names, answers) is Ok
            &&& names_of(gathered(names, answers)->Ok_0) == names.take(answers.len() as int)
            &&& forall|i: int| 0 <= i < answers.len() ==> Ok::<V, Seq<char>>(#[trigger] gathered(names, answers)->Ok_0[i].1) == answers[i]
        },
        forall|k: int| 0 <= k < answers.len() && answers[k] is Err
            && (forall|i: int| 0 <= i < k ==> answers[i] is Ok)
            ==> gathered(names, answers) == Err::<Seq<(Seq<char>, V)>, Seq<char>>(answers[k]->Err_0),
    decreases answers.len(),
{
    if answers.len() > 0 {
        let n = answers.len() - 1;
        let prefix = answers.take(n);
        lemma_gathered_all_or_nothing(names, prefix);
        if forall|i: int| 0 <= i < answers.len() ==> answers[i] is Ok {
            assert forall|i: int| 0 <= i < prefix.len() implies prefix[i] is Ok by {
                assert(prefix[i] == answers[i]);
            }
            let acc = gathered(names, prefix)->Ok_0;
            assert(acc.len() == n) by {
                assert(names_of(acc).len() == acc.len());
            }
            assert(answers[n] is Ok);
            let all = gathered(names, answers)->Ok_0;
            assert(all == acc.push((names[n], answers[n]->Ok_0)));
            assert(names_of(all) =~= names_of(acc).push(names[n]));
            assert(names_of(all) =~= names.take(answers.len() as int));
            assert forall|i: int| 0 <= i < answers.len() implies Ok::<V, Seq<char>>(#[trigger] all[i].1) == answers[i] by {
                if i < n {
                    assert(all[i] == acc[i]);
                    assert(prefix[i] == answers[i]);
                }
            }
        }
        assert forall|k: int| 0 <= k < answers.len() && answers[k] is Err
            && (forall|i: int| 0 <= i < k ==> answers[i] is Ok)
            implies gathered(names, answers) == Err::<Seq<(Seq<char>, V)>, Seq<char>>(answers[k]->Err_0) by {
            if k < n {
                assert(prefix[k] == answers[k]);
                assert forall|i: int| 0 <= i < k implies prefix[i] is Ok by {
                    assert(prefix[i] == answers[i]);
                }
            } else {
                assert forall|i: int| 0 <= i < prefix.len() implies prefix[i] is Ok by {
                    assert(prefix[i] == answers[i]);
                }
            }
        }
    }
}


/// What gathering answers called in order gives: when every collector can
/// only answer with a snapshot, all of them are called and the gathering
/// succeeds, with one entry per collector, in order, each holding a snapshot
/// that collector gave; otherwise, when it stopped, it stopped at a failure
/// and the gathering is that failure's message.
pub proof fn lemma_called_in_order<C: Collector>(cs: Seq<(Seq<char>, C)>, answers: Seq<Result<C::Snapshot, String>>)
    requires
        called_in_order(cs, answers),
    ensures
        (forall|i: int, a: Result<C::Snapshot, String>| 0 <= i < cs.len() && #[trigger] cs[i].1.answered(a) ==> a is Ok) ==> {
            &&& answers.len() == cs.len()
            &&& gathered(names_of(cs), answer_views(answers)) is Ok
            &&& names_of(gathered(names_of(cs), answer_views(answers))->Ok_0) == names_of(cs)
            &&& forall|i: int| 0 <= i < cs.len() ==> cs[i].1.answered(
                Ok(#[trigger] gathered(names_of(cs), answer_views(answers))->Ok_0[i].1),
            )
        },
        answers.len() > 0 && answers.last() is Err ==> gathered(names_of(cs), answer_views(answers))
            == Err::<Seq<(Seq<char>, C::Snapshot)>, Seq<char>>(answers.last()->Err_0@),
{
    let names = names_of(cs);
    let views = answer_views(answers);
    assert(names.len() == cs.len());
    lemma_gathered_all_or_nothing(names, views);
    if forall|i: int, a: Result<C::Snapshot, String>| 0 <= i < cs.len() && #[trigger] cs[i].1.answered(a) ==> a is Ok {
        if answers.len() < cs.len() {
            assert(cs[answers.len() - 1].1.answered(answers[answers.len() - 1]));
        }
        assert forall|i: int| 0 <= i < views.len() implies views[i] is Ok by {
            assert(cs[i].1.answered(answers[i]));
        }
        let all = gathered(names, views)->Ok_0;
        assert(names.take(views.len() as int) =~= names);
        assert forall|i: int| 0 <= i < cs.len() implies cs[i].1.answered(Ok(#[trigger] all[i].1)) by {
            assert(cs[i].1.answered(answers[i]));
            assert(Ok::<C::Snapshot, Seq<char>>(all[i].1) == views[i]);
        }
    }
    if answers.len() > 0 && answers.last() is Err {
        let k = answers.len() - 1;
        assert forall|i: int| 0 <= i < k implies views[i] is Ok by {
            assert(answers[i] is Ok);
        }
        assert(views[k] is Err);
    }
}

} // verus!
