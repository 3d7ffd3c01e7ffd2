//! The replies that the commands send, built from what the engine returned.
use vstd::prelude::*;
use vstd::string::StringExecFns;

use crate::engine::StatusTable;
use crate::registry::{all_containers, lemma_in_registry, lemma_names_distinct, ValidContainers};

verus! {

/// How many of the most recent log lines the `logs` command shows.
pub const LOG_TAIL: usize = 10;

/// A titled list of fields, one per registry container: name, then status.
#[derive(Clone, Debug, PartialEq, Eq)]
pub struct StatusEmbed {
    pub title: String,
    pub fields: Vec<(String, String)>,
}

/// What a container's status field shows: the reported status, or "Missing".
pub open spec fn field_value(m: Map<Seq<char>, Seq<char>>, n: Seq<char>) -> Seq<char> {
    if m.contains_key(n) {
        m[n]
    } else {
        "Missing"@
    }
}

/// `e` is the status embed for the statuses `m`: the fixed title, and exactly
/// one field per registry entry, in declaration order.
pub open spec fn is_status_embed(e: StatusEmbed, m: Map<Seq<char>, Seq<char>>) -> bool {
    &&& e.title@ == "Minecraft server status"@
    &&& e.fields@.len() == all_containers().len()
    &&& forall|i: int|
        0 <= i < e.fields@.len() ==> {
            &&& (#[trigger] e.fields@[i]).0@ == all_containers()[i].spec_name()
            &&& e.fields@[i].1@ == field_value(m, all_containers()[i].spec_name())
        }
}

/// A status embed holds exactly one field for each registry container, and
/// that field shows the container's status, or "Missing" where none was
/// reported.
pub proof fn lemma_one_field_per_container(
    e: StatusEmbed,
    m: Map<Seq<char>, Seq<char>>,
    c: ValidContainers,
)
    requires
        is_status_embed(e, m),
    ensures
        exists|i: int|
            0 <= i < e.fields@.len() && (#[trigger] e.fields@[i]).0@ == c.spec_name()
                && e.fields@[i].1@ == field_value(m, c.spec_name()),
        forall|i: int, j: int|
            0 <= i < e.fields@.len() && 0 <= j < e.fields@.len() && (#[trigger] e.fields@[i]).0@
                == c.spec_name() && (#[trigger] e.fields@[j]).0@ == c.spec_name() ==> i == j,
{
    lemma_names_distinct();
    lemma_in_registry(c);
    let i = choose|i: int| 0 <= i < all_containers().len() && all_containers()[i] == c;
    assert(e.fields@[i].0@ == c.spec_name());
    assert forall|i: int, j: int|
        0 <= i < e.fields@.len() && 0 <= j < e.fields@.len() && (#[trigger] e.fields@[i]).0@
            == c.spec_name() && (#[trigger] e.fields@[j]).0@ == c.spec_name() implies i == j by {
        assert(all_containers()[i] == c);
        assert(all_containers()[j] == c);
    }
}

/// The reply to `start`, given whether the engine started the container.
pub open spec fn start_text(c: ValidContainers, ok: bool) -> Seq<char> {
    c.spec_name() + if ok {
        ": started"@
    } else {
        ": failed to start"@
    }
}

/// The reply to `stop`, given whether the engine stopped the container.
pub open spec fn stop_text(c: ValidContainers, ok: bool) -> Seq<char> {
    c.spec_name() + if ok {
        ": stopped"@
    } else {
        ": failed to stop"@
    }
}

/// The lines of `s` joined with a newline between each two.
pub open spec fn join_lines(s: Seq<Seq<char>>) -> Seq<char>
    decreases s.len(),
{
    if s.len() == 0 {
        Seq::empty()
    } else if s.len() == 1 {
        s[0]
    } else {
        join_lines(s.drop_last()) + "\n"@ + s.last()
    }
}

/// The last `n` elements of `s`, or all of them where there are fewer.
pub open spec fn last_lines(s: Seq<Seq<char>>, n: nat) -> Seq<Seq<char>> {
    if s.len() <= n {
        s
    } else {
        s.subrange(s.len() - n, s.len() as int)
    }
}

/// The text of each line.
pub open spec fn texts(lines: Seq<String>) -> Seq<Seq<char>> {
    lines.map_values(|l: String| l@)
}

/// The reply to `logs`: the most recent lines, joined, in a code block.
pub open spec fn logs_text(lines: Seq<Seq<char>>) -> Seq<char> {
    "```"@ + join_lines(last_lines(lines, LOG_TAIL as nat)) + "```"@
}

/// The reply to `status`.
pub fn status_embed(table: &StatusTable) -> (r: StatusEmbed)
    ensures
        is_status_embed(r, table@),
{
    let all = ValidContainers::variants();
    let mut fields: Vec<(String, String)> = Vec::new();
    let mut i: usize = 0;
    while i < all.len()
        invariant
            all@ == all_containers(),
            i <= all@.len(),
            fields@.len() == i,
            forall|j: int|
                0 <= j < i ==> {
                    &&& (#[trigger] fields@[j]).0@ == all_containers()[j].spec_name()
                    &&& fields@[j].1@ == field_value(table@, all_containers()[j].spec_name())
                },
        decreases all@.len() - i,
    {
        let c = all[i];
        let value = match table.status_of(c) {
            Some(s) => s,
            None => String::from_str("Missing"),
        };
        fields.push((String::from_str(c.name()), value));
        i = i + 1;
    }
    StatusEmbed { title: String::from_str("Minecraft server status"), fields }
}

/// The reply to `start`.
pub fn start_reply(c: ValidContainers, ok: bool) -> (r: String)
    ensures
        r@ == start_text(c, ok),
{
    let mut r = String::from_str(c.name());
    if ok {
        r.append(": started");
    } else {
        r.append(": failed to start");
    }
    r
}

/// The reply to `stop`.
pub fn stop_reply(c: ValidContainers, ok: bool) -> (r: String)
    ensures
        r@ == stop_text(c, ok),
{
    let mut r = String::from_str(c.name());
    if ok {
        r.append(": stopped");
    } else {
        r.append(": failed to stop");
    }
    r
}

/// The reply to `logs`, for the lines the engine returned, oldest first.
pub fn logs_reply(lines: &Vec<String>) -> (r: String)
    ensures
        r@ == logs_text(texts(lines@)),
{
    let ghost all = texts(lines@);
    let ghost tail = last_lines(all, LOG_TAIL as nat);
    let n: usize = lines.len();
    let start: usize = if n > LOG_TAIL {
        n - LOG_TAIL
    } else {
        0
    };
    let mut r = String::from_str("```");
    let mut i: usize = start;
    while i < n
        invariant
            n == lines@.len(),
            all == texts(lines@),
            tail == last_lines(all, LOG_TAIL as nat),
            tail =~= all.subrange(start as int, n as int),
            start <= i <= n,
            r@ == "```"@ + join_lines(tail.take(i - start)),
        decreases n - i,
    {
        let ghost k: int = i - start;
        assert(tail.take(k + 1).drop_last() =~= tail.take(k));
        assert(tail.take(k + 1).last() == lines@[i as int]@);
        if i > start {
            r.append("\n");
        }
        r.append(lines[i].as_str());
        proof {
            if k == 0 {
                assert(tail.take(k) =~= Seq::<Seq<char>>::empty());
                assert(r@ =~= "```"@ + join_lines(tail.take(k + 1)));
            } else {
                assert(r@ =~= "```"@ + join_lines(tail.take(k + 1)));
            }
        }
        i = i + 1;
    }
    assert(tail.take(n - start) =~= tail);
    r.append("```");
    r
}

} // verus!
