use vstd::prelude::*;

use crate::decimal::{parse_usize, parsed_usize};
use crate::plugin_configuration::{entries_view, lookup, PluginConfiguration};
use crate::stable_sort::{
    insertion_point, lemma_insertion_point, lemma_stable_sort_by_key, sorted_by_key,
    stable_sort_by_key,
};
use crate::text::{chars_equal, chars_of, starts_with, trim, trim_str};

verus! {

/// Configuration key of the right-sidebar command.
pub const RIGHT_SIDEBAR_COMMAND_KEY: &'static str = "right_sidebar_command";

/// Prefix of the numbered right-sidebar argument keys.
pub const RIGHT_SIDEBAR_ARG_PREFIX: &'static str = "right_sidebar_arg_";

/// The command the right agent sidebar runs, with its arguments.
#[derive(Debug, PartialEq, Eq)]
pub struct RightSidebarCommandConfig {
    pub command: String,
    pub args: Vec<String>,
}

/// How to launch the right agent sidebar: command, arguments and working
/// directory.
#[derive(Debug, PartialEq, Eq)]
pub struct RightSidebarCommandLaunchSpec {
    pub command: String,
    pub args: Vec<String>,
    pub cwd: String,
}

/// The characters of each string.
pub open spec fn strings_view(strings: Seq<String>) -> Seq<Seq<char>> {
    strings.map_values(|s: String| s@)
}

/// The argument number a key stands for: `right_sidebar_arg_<n>` with `n` a
/// positive number as `usize::from_str` reads it.
pub open spec fn arg_number(key: Seq<char>) -> Option<usize> {
    if starts_with(key, RIGHT_SIDEBAR_ARG_PREFIX@) {
        match parsed_usize(key.skip(RIGHT_SIDEBAR_ARG_PREFIX@.len() as int)) {
            Some(n) => if n > 0 {
                Some(n)
            } else {
                None
            },
            None => None,
        }
    } else {
        None
    }
}

/// The numbered arguments of the configuration, in key order, each with its
/// number.
pub open spec fn numbered_args(entries: Seq<(Seq<char>, Seq<char>)>) -> Seq<(usize, Seq<char>)>
    decreases entries.len(),
{
    if entries.len() == 0 {
        Seq::empty()
    } else {
        let rest = numbered_args(entries.drop_last());
        match arg_number(entries.last().0) {
            Some(n) => rest.push((n, entries.last().1)),
            None => rest,
        }
    }
}

/// Orders numbered arguments by their number.
pub open spec fn by_arg_number() -> spec_fn((usize, Seq<char>)) -> int {
    |arg: (usize, Seq<char>)| arg.0 as int
}

/// The argument values in the order the command receives them: stably
/// sorted by number.
pub open spec fn configured_args(entries: Seq<(Seq<char>, Seq<char>)>) -> Seq<Seq<char>> {
    stable_sort_by_key(numbered_args(entries), by_arg_number()).map_values(
        |arg: (usize, Seq<char>)| arg.1,
    )
}

/// The numbered arguments with their values' characters.
pub open spec fn numbered_view(args: Seq<(usize, String)>) -> Seq<(usize, Seq<char>)> {
    args.map_values(|arg: (usize, String)| (arg.0, arg.1@))
}

/// The argument number of a configuration key.
fn arg_number_of(key: &String) -> (number: Option<usize>)
    ensures
        number == arg_number(key@),
{
    let key_chars = chars_of(key.as_str());
    let prefix_chars = chars_of(RIGHT_SIDEBAR_ARG_PREFIX);
    let p = prefix_chars.len();
    if p > key_chars.len() {
        return None;
    }
    let mut head: Vec<char> = Vec::new();
    let mut i: usize = 0;
    while i < p
        invariant
            p <= key_chars@.len(),
            i <= p,
            head@ == key_chars@.subrange(0, i as int),
        decreases p - i,
    {
        head.push(key_chars[i]);
        i = i + 1;
        assert(head@ =~= key_chars@.subrange(0, i as int));
    }
    if !chars_equal(head.as_slice(), prefix_chars.as_slice()) {
        return None;
    }
    assert(key_chars@.subrange(p as int, key_chars@.len() as int) =~= key@.skip(p as int));
    match parse_usize(key_chars.as_slice(), p, key_chars.len()) {
        Some(n) => if n > 0 {
            Some(n)
        } else {
            None
        },
        None => None,
    }
}

/// Inserts `arg` into `sorted` after every argument whose number is not
/// larger.
fn insert_by_number(sorted: &mut Vec<(usize, String)>, arg: (usize, String))
    ensures
        numbered_view(final(sorted)@) == numbered_view(old(sorted)@).insert(
            insertion_point(numbered_view(old(sorted)@), by_arg_number(), arg.0 as int),
            (arg.0, arg.1@),
        ),
{
    let ghost view = numbered_view(sorted@);
    proof {
        lemma_insertion_point(view, by_arg_number(), arg.0 as int);
    }
    let n = sorted.len();
    let mut i: usize = 0;
    assert(view.skip(0) =~= view);
    while i < n && sorted[i].0 <= arg.0
        invariant
            n == sorted@.len(),
            view == numbered_view(sorted@),
            i <= n,
            insertion_point(view, by_arg_number(), arg.0 as int) == i + insertion_point(
                view.skip(i as int),
                by_arg_number(),
                arg.0 as int,
            ),
        decreases n - i,
    {
        assert(view.skip(i as int).drop_first() =~= view.skip(i + 1));
        i = i + 1;
    }
    proof {
        if i < n {
            assert(view.skip(i as int)[0].0 > arg.0);
        } else {
            assert(view.skip(i as int).len() == 0);
        }
    }
    sorted.insert(i, arg);
    assert(numbered_view(sorted@) =~= view.insert(i as int, (arg.0, arg.1@)));
}

impl RightSidebarCommandConfig {
    /// Reads the right-sidebar command and its numbered arguments from the
    /// plugin configuration; a missing or blank command gives `None`.
    /// Arguments `right_sidebar_arg_<n>` (with `n > 0`) are passed in order of
    /// `n`, equal numbers in key order.
    pub fn from_plugin_configuration(configuration: &PluginConfiguration) -> (config: Option<Self>)
        ensures
            match lookup(configuration@, RIGHT_SIDEBAR_COMMAND_KEY@) {
                Some(raw) => if trim(raw).len() > 0 {
                    config matches Some(c) && c.command@ == trim(raw) && strings_view(c.args@)
                        == configured_args(configuration@)
                } else {
                    config is None
                },
                None => config is None,
            },
    {
        let command = match configuration.get(RIGHT_SIDEBAR_COMMAND_KEY) {
            Some(raw) => trim_str(raw.as_str()).to_string(),
            None => {
                return None;
            },
        };
        if command.as_str().is_empty() {
            return None;
        }
        let entries = configuration.entries();
        let ghost view = entries_view(entries@);
        let n = entries.len();
        let mut numbered: Vec<(usize, String)> = Vec::new();
        let mut k: usize = 0;
        while k < n
            invariant
                n == entries@.len(),
                view == entries_view(entries@),
                k <= n,
                numbered_view(numbered@) == numbered_args(view.take(k as int)),
            decreases n - k,
        {
            assert(view.take(k + 1).drop_last() =~= view.take(k as int));
            match arg_number_of(&entries[k].0) {
                Some(number) => {
                    numbered.push((number, entries[k].1.clone()));
                    assert(numbered_view(numbered@) =~= numbered_args(view.take(k as int)).push(
                        (number, entries@[k as int].1@),
                    ));
                },
                None => {},
            }
            k = k + 1;
        }
        assert(view.take(n as int) =~= view);
        let ghost numbered_all = numbered_view(numbered@);
        let mut sorted: Vec<(usize, String)> = Vec::new();
        let m = numbered.len();
        let mut j: usize = 0;
        assert(numbered_all.take(0) =~= Seq::<(usize, Seq<char>)>::empty());
        while j < m
            invariant
                m == numbered@.len(),
                numbered_all == numbered_view(numbered@),
                j <= m,
                numbered_view(sorted@) == stable_sort_by_key(
                    numbered_all.take(j as int),
                    by_arg_number(),
                ),
            decreases m - j,
        {
            assert(numbered_all.take(j + 1).drop_last() =~= numbered_all.take(j as int));
            insert_by_number(&mut sorted, (numbered[j].0, numbered[j].1.clone()));
            j = j + 1;
        }
        assert(numbered_all.take(m as int) =~= numbered_all);
        let mut args: Vec<String> = Vec::new();
        let s = sorted.len();
        let mut a: usize = 0;
        let ghost sorted_view = numbered_view(sorted@);
        while a < s
            invariant
                s == sorted@.len(),
                sorted_view == numbered_view(sorted@),
                a <= s,
                args@.len() == a,
                forall|q: int| 0 <= q < a ==> #[trigger] args@[q]@ == sorted_view[q].1,
            decreases s - a,
        {
            args.push(sorted[a].1.clone());
            a = a + 1;
        }
        assert(strings_view(args@) =~= sorted_view.map_values(|arg: (usize, Seq<char>)| arg.1));
        Some(RightSidebarCommandConfig { command, args })
    }

    /// The launch of this command in the working directory `cwd`.
    pub fn launch_spec(&self, cwd: &str) -> (spec: RightSidebarCommandLaunchSpec)
        ensures
            spec.command@ == self.command@,
            strings_view(spec.args@) == strings_view(self.args@),
            spec.cwd@ == cwd@,
    {
        let mut args: Vec<String> = Vec::new();
        let n = self.args.len();
        let mut i: usize = 0;
        while i < n
            invariant
                n == self.args@.len(),
                i <= n,
                args@.len() == i,
                forall|q: int| 0 <= q < i ==> #[trigger] args@[q]@ == self.args@[q]@,
            decreases n - i,
        {
            args.push(self.args[i].clone());
            i = i + 1;
        }
        assert(strings_view(args@) =~= strings_view(self.args@));
        RightSidebarCommandLaunchSpec {
            command: self.command.clone(),
            args,
            cwd: cwd.to_string(),
        }
    }
}

/// The numbered arguments reach the command in the order of their numbers,
/// each of them exactly once (arguments with equal numbers keep their
/// configuration order).
pub proof fn law_sidebar_args_follow_their_numbers(entries: Seq<(Seq<char>, Seq<char>)>)
    ensures
        sorted_by_key(stable_sort_by_key(numbered_args(entries), by_arg_number()), by_arg_number()),
        stable_sort_by_key(numbered_args(entries), by_arg_number()).to_multiset()
            == numbered_args(entries).to_multiset(),
        configured_args(entries).len() == numbered_args(entries).len(),
{
    lemma_stable_sort_by_key(numbered_args(entries), by_arg_number());
}

} // verus!
