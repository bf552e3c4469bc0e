//! Command classification and parsing.
//!
//! Message text classifies to a command when it starts with the command
//! marker, its first whitespace-separated token (after the marker) names a
//! declared command, and the remaining tokens match that command's declared
//! argument count. Everything else — no marker, an unknown name, and, as an
//! explicit policy choice, a known name with the wrong number of arguments —
//! is "not a command" and takes the default path.

use vstd::prelude::*;

use crate::types::UpdateEnvelope;
use crate::COMMAND_MARKER;

verus! {

/// The byte that separates tokens in message text: the space.
pub const TOKEN_SEPARATOR: u8 = 32u8;

/// One command declared by the caller: a name (without the marker) and the
/// exact number of arguments it takes.
#[derive(Debug)]
pub struct CommandDef {
    /// The command's name, without the leading marker.
    pub name: Vec<u8>,
    /// How many arguments the command takes.
    pub arity: usize,
}

/// The closed set of commands declared by the caller. Classification
/// resolves a name to the first declaration that carries it.
#[derive(Debug)]
pub struct CommandSet {
    /// The declared commands, in declaration order.
    pub defs: Vec<CommandDef>,
}

impl CommandSet {
    /// An empty command set.
    pub fn new() -> (r: CommandSet)
        ensures
            r.defs@.len() == 0,
    {
        CommandSet { defs: Vec::new() }
    }

    /// Declares one more command, after all declared so far.
    pub fn declare(&mut self, name: Vec<u8>, arity: usize)
        ensures
            final(self).defs@ == old(self).defs@.push(CommandDef { name: name, arity: arity }),
    {
        self.defs.push(CommandDef { name, arity });
    }
}

/// A successfully parsed command: which declaration matched, and the
/// argument tokens that followed the name.
#[derive(Debug, PartialEq, Eq)]
pub struct ParsedCommand {
    /// Index of the matching declaration in the command set.
    pub index: usize,
    /// The argument tokens, in order.
    pub args: Vec<Vec<u8>>,
}

/// The mathematical value of a parsed command.
pub struct ParsedCommandView {
    /// Index of the matching declaration in the command set.
    pub index: int,
    /// The argument tokens, in order.
    pub args: Seq<Seq<u8>>,
}

impl View for ParsedCommand {
    type V = ParsedCommandView;

    open spec fn view(&self) -> ParsedCommandView {
        ParsedCommandView { index: self.index as int, args: seq_views(self.args@) }
    }
}

/// The views of a sequence of byte vectors.
pub open spec fn seq_views(s: Seq<Vec<u8>>) -> Seq<Seq<u8>> {
    s.map_values(|v: Vec<u8>| v@)
}

/// The tokens of `s` once `done` tokens are already complete and the bytes
/// of `cur` have been read into a token still open: walks `s` byte by byte,
/// a separator closing the open token, any other byte extending it.
pub open spec fn tokens_from(s: Seq<u8>, done: Seq<Seq<u8>>, cur: Seq<u8>) -> Seq<Seq<u8>>
    decreases s.len(),
{
    if s.len() == 0 {
        if cur.len() == 0 {
            done
        } else {
            done.push(cur)
        }
    } else if s[0] == TOKEN_SEPARATOR {
        if cur.len() == 0 {
            tokens_from(s.skip(1), done, cur)
        } else {
            tokens_from(s.skip(1), done.push(cur), Seq::empty())
        }
    } else {
        tokens_from(s.skip(1), done, cur.push(s[0]))
    }
}

/// The maximal separator-free, nonempty runs of `s`, in order.
pub open spec fn spec_tokens(s: Seq<u8>) -> Seq<Seq<u8>> {
    tokens_from(s, Seq::empty(), Seq::empty())
}

/// Splits `text` into its whitespace-separated tokens.
pub fn tokens(text: &Vec<u8>) -> (r: Vec<Vec<u8>>)
    ensures
        seq_views(r@) == spec_tokens(text@),
{
    let mut done: Vec<Vec<u8>> = Vec::new();
    let mut cur: Vec<u8> = Vec::new();
    let mut i: usize = 0;
    proof {
        assert(text@.skip(0) =~= text@);
        assert(seq_views(done@) =~= Seq::<Seq<u8>>::empty());
    }
    while i < text.len()
        invariant
            i <= text.len(),
            tokens_from(text@.skip(i as int), seq_views(done@), cur@) == spec_tokens(text@),
        decreases text.len() - i,
    {
        proof {
            assert(text@.skip(i as int).skip(1) =~= text@.skip(i as int + 1));
            assert(text@.skip(i as int)[0] == text@[i as int]);
        }
        let b = text[i];
        if b == TOKEN_SEPARATOR {
            if cur.len() > 0 {
                let ghost done_before = done@;
                let ghost cur_before = cur@;
                done.push(cur);
                cur = Vec::new();
                proof {
                    assert(seq_views(done@) =~= seq_views(done_before).push(cur_before));
                }
            }
        } else {
            cur.push(b);
        }
        i = i + 1;
    }
    proof {
        assert(text@.skip(i as int) =~= Seq::<u8>::empty());
    }
    if cur.len() > 0 {
        let ghost done_before = done@;
        let ghost cur_before = cur@;
        done.push(cur);
        proof {
            assert(seq_views(done@) =~= seq_views(done_before).push(cur_before));
        }
    }
    done
}

/// The index of the first declaration in `defs` whose name is `name`.
pub open spec fn spec_find(defs: Seq<CommandDef>, name: Seq<u8>) -> Option<int>
    decreases defs.len(),
{
    if defs.len() == 0 {
        None
    } else if defs[0].name@ == name {
        Some(0int)
    } else {
        match spec_find(defs.skip(1), name) {
            None => None,
            Some(j) => Some(j + 1),
        }
    }
}

proof fn lemma_spec_find_first(defs: Seq<CommandDef>, name: Seq<u8>, j: int)
    requires
        0 <= j < defs.len(),
        defs[j].name@ == name,
        forall|k: int| 0 <= k < j ==> defs[k].name@ != name,
    ensures
        spec_find(defs, name) == Some(j),
    decreases j,
{
    if j == 0 {
    } else {
        assert(defs[0].name@ != name);
        assert(defs.skip(1)[j - 1] == defs[j]);
        assert forall|k: int| 0 <= k < j - 1 implies defs.skip(1)[k].name@ != name by {
            assert(defs.skip(1)[k] == defs[k + 1]);
        }
        lemma_spec_find_first(defs.skip(1), name, j - 1);
    }
}

proof fn lemma_spec_find_none(defs: Seq<CommandDef>, name: Seq<u8>)
    requires
        forall|k: int| 0 <= k < defs.len() ==> defs[k].name@ != name,
    ensures
        spec_find(defs, name) is None,
    decreases defs.len(),
{
    if defs.len() == 0 {
    } else {
        assert forall|k: int| 0 <= k < defs.len() - 1 implies defs.skip(1)[k].name@ != name by {
            assert(defs.skip(1)[k] == defs[k + 1]);
        }
        lemma_spec_find_none(defs.skip(1), name);
    }
}

/// Whether two byte vectors hold the same bytes.
fn bytes_eq(a: &Vec<u8>, b: &Vec<u8>) -> (r: bool)
    ensures
        r == (a@ == b@),
{
    if a.len() != b.len() {
        return false;
    }
    let mut i: usize = 0;
    while i < a.len()
        invariant
            i <= a.len(),
            a@.len() == b@.len(),
            forall|k: int| 0 <= k < i ==> a@[k] == b@[k],
        decreases a.len() - i,
    {
        if a[i] != b[i] {
            return false;
        }
        i = i + 1;
    }
    proof {
        assert(a@ =~= b@);
    }
    true
}

/// Finds the first declaration in `defs` whose name is `name`.
fn find_command(defs: &Vec<CommandDef>, name: &Vec<u8>) -> (r: Option<usize>)
    ensures
        r matches Some(j) ==> j < defs.len() && spec_find(defs@, name@) == Some(j as int),
        r is None ==> spec_find(defs@, name@) is None,
{
    let mut j: usize = 0;
    while j < defs.len()
        invariant
            j <= defs.len(),
            forall|k: int| 0 <= k < j ==> defs@[k].name@ != name@,
        decreases defs.len() - j,
    {
        if bytes_eq(&defs[j].name, name) {
            proof {
                lemma_spec_find_first(defs@, name@, j as int);
            }
            return Some(j);
        }
        j = j + 1;
    }
    proof {
        lemma_spec_find_none(defs@, name@);
    }
    None
}

/// The classification of `text` against the declared commands: the parsed
/// command when `text` starts with the marker, its first token names a
/// declared command, and the remaining tokens match that command's arity;
/// `None` — "not a command" — otherwise.
pub open spec fn spec_classify(text: Seq<u8>, set: CommandSet) -> Option<ParsedCommandView> {
    if text.len() == 0 || text[0] != COMMAND_MARKER {
        None
    } else {
        let toks = spec_tokens(text);
        if toks.len() == 0 || toks[0].len() == 0 {
            None
        } else {
            let name = toks[0].skip(1);
            match spec_find(set.defs@, name) {
                None => None,
                Some(j) => if set.defs@[j].arity as int == toks.len() - 1 {
                    Some(ParsedCommandView { index: j, args: toks.skip(1) })
                } else {
                    None
                },
            }
        }
    }
}

/// Classifies `text` against the declared commands.
///
/// Returns the parsed command exactly when the text classifies; a missing
/// marker, an unknown command name, or — by this library's declared policy —
/// a known name with the wrong number of arguments all yield `None`.
pub fn parse(text: &Vec<u8>, set: &CommandSet) -> (r: Option<ParsedCommand>)
    ensures
        r is Some <==> spec_classify(text@, *set) is Some,
        r matches Some(pc) ==> spec_classify(text@, *set) == Some(pc@),
{
    if text.len() == 0 {
        return None;
    }
    if text[0] != COMMAND_MARKER {
        return None;
    }
    let mut toks = tokens(text);
    if toks.len() == 0 {
        return None;
    }
    let ghost all_toks = spec_tokens(text@);
    let first = toks.remove(0);
    proof {
        assert(first@ == all_toks[0]);
        assert(seq_views(toks@) =~= all_toks.skip(1));
    }
    if first.len() == 0 {
        return None;
    }
    let mut name: Vec<u8> = Vec::new();
    let mut k: usize = 1;
    while k < first.len()
        invariant
            1 <= k <= first.len(),
            name@ == first@.subrange(1, k as int),
        decreases first.len() - k,
    {
        proof {
            assert(first@.subrange(1, k as int + 1) =~= first@.subrange(1, k as int).push(
                first@[k as int],
            ));
        }
        let b = first[k];
        name.push(b);
        k = k + 1;
    }
    proof {
        assert(name@ =~= all_toks[0].skip(1));
    }
    match find_command(&set.defs, &name) {
        None => None,
        Some(j) => {
            let def_arity = set.defs[j].arity;
            if def_arity == toks.len() {
                let pc = ParsedCommand { index: j, args: toks };
                proof {
                    assert(pc@.args =~= all_toks.skip(1));
                }
                Some(pc)
            } else {
                None
            }
        },
    }
}

/// The classification of one update envelope: the parsed command when the
/// envelope wraps a message whose text classifies, `None` otherwise.
pub open spec fn spec_classify_envelope(env: UpdateEnvelope, set: CommandSet) -> Option<
    ParsedCommandView,
> {
    match env {
        UpdateEnvelope::Message(m) => spec_classify(m.text@, set),
        UpdateEnvelope::Other => None,
    }
}

} // verus!
