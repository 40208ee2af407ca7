use vstd::prelude::*;

verus! {

/// Splitting on single spaces, as users type commands: every run between two
/// spaces is a word, so consecutive spaces yield empty words and the result
/// always holds at least one word.
pub open spec fn spec_split_words(s: Seq<char>) -> Seq<Seq<char>>
    decreases s.len(),
{
    if s.len() == 0 {
        seq![Seq::<char>::empty()]
    } else if s[0] == ' ' {
        seq![Seq::<char>::empty()] + spec_split_words(s.drop_first())
    } else {
        let rest = spec_split_words(s.drop_first());
        seq![seq![s[0]] + rest[0]] + rest.drop_first()
    }
}

/// Splitting never yields an empty word list.
pub proof fn lemma_split_words_nonempty(s: Seq<char>)
    ensures
        spec_split_words(s).len() >= 1,
    decreases s.len(),
{
    if s.len() == 0 {
    } else if s[0] == ' ' {
    } else {
        lemma_split_words_nonempty(s.drop_first());
    }
}

/// What splitting does at the first space: everything before it is the first
/// word, and the remainder splits on its own. When there is no space at all,
/// the whole string is the one word.
proof fn lemma_split_words_at(s: Seq<char>, i: int)
    requires
        0 <= i <= s.len(),
        forall|j: int| 0 <= j < i ==> s[j] != ' ',
        i < s.len() ==> s[i] == ' ',
    ensures
        i == s.len() ==> spec_split_words(s) == seq![s],
        i < s.len() ==> spec_split_words(s) == seq![s.take(i)] + spec_split_words(s.skip(i + 1)),
    decreases i,
{
    if i == 0 {
        if s.len() == 0 {
            assert(s =~= Seq::<char>::empty());
            assert(spec_split_words(s) =~= seq![s]);
        } else {
            assert(s.take(0) =~= Seq::<char>::empty());
            assert(s.skip(1) =~= s.drop_first());
            assert(spec_split_words(s) =~= seq![s.take(0)] + spec_split_words(s.skip(1)));
        }
    } else {
        let rest = s.drop_first();
        lemma_split_words_nonempty(rest);
        lemma_split_words_at(rest, i - 1);
        if i == s.len() {
            assert(spec_split_words(rest) == seq![rest]);
            assert(seq![s[0]] + rest =~= s);
            assert(spec_split_words(s) =~= seq![s]);
        } else {
            let tail = spec_split_words(rest.skip(i));
            assert(spec_split_words(rest) == seq![rest.take(i - 1)] + tail);
            assert((seq![rest.take(i - 1)] + tail)[0] == rest.take(i - 1));
            assert((seq![rest.take(i - 1)] + tail).drop_first() =~= tail);
            assert(seq![s[0]] + rest.take(i - 1) =~= s.take(i));
            assert(rest.skip(i) =~= s.skip(i + 1));
            assert(spec_split_words(s) =~= seq![s.take(i)] + spec_split_words(s.skip(i + 1)));
        }
    }
}

/// Splits a string on single spaces, yielding the words in order.
pub fn split_words(s: &str) -> (r: Vec<String>)
    ensures
        r@.len() == spec_split_words(s@).len(),
        forall|k: int| 0 <= k < r@.len() ==> (#[trigger] r@[k])@ == spec_split_words(s@)[k],
    decreases s@.len(),
{
    let len = s.unicode_len();
    let mut i: usize = 0;
    while i < len && s.get_char(i) != ' '
        invariant
            0 <= i <= len,
            len == s@.len(),
            forall|j: int| 0 <= j < i ==> s@[j] != ' ',
        decreases len - i,
    {
        i = i + 1;
    }
    proof {
        lemma_split_words_at(s@, i as int);
    }
    if i == len {
        let mut r: Vec<String> = Vec::new();
        r.push(s.to_owned());
        r
    } else {
        let word = s.substring_char(0, i);
        let rest = s.substring_char(i + 1, len);
        let mut r = split_words(rest);
        r.insert(0, word.to_owned());
        proof {
            assert(s@.subrange(0, i as int) == s@.take(i as int));
            assert(s@.subrange(i as int + 1, len as int) =~= s@.skip(i as int + 1));
        }
        r
    }
}

/// A chat message parsed into a command: the word after the prefix, and the
/// words after that as arguments.
#[derive(Debug, PartialEq, Eq)]
pub struct ParsedCommand {
    pub name: String,
    pub args: Vec<String>,
}

/// Whether a message is a command at all: it starts with the prefix.
pub open spec fn spec_is_command(content: Seq<char>, prefix: Seq<char>) -> bool {
    content.len() >= prefix.len() && content.take(prefix.len() as int) == prefix
}

/// The words of a command message, prefix stripped.
pub open spec fn spec_command_words(content: Seq<char>, prefix: Seq<char>) -> Seq<Seq<char>> {
    spec_split_words(content.skip(prefix.len() as int))
}

/// Recognizes a command message and takes it apart: `None` for anything that
/// does not carry the prefix, otherwise the first word after the prefix as
/// the command name and the remaining words as arguments.
pub fn parse_command(content: &str, prefix: &str) -> (r: Option<ParsedCommand>)
    ensures
        r is Some <==> spec_is_command(content@, prefix@),
        r matches Some(pc) ==> ({
            let words = spec_command_words(content@, prefix@);
            &&& pc.name@ == words[0]
            &&& pc.args@.len() == words.len() - 1
            &&& forall|k: int| 0 <= k < pc.args@.len() ==> (#[trigger] pc.args@[k])@ == words[k
                + 1]
        }),
{
    let plen = prefix.unicode_len();
    let clen = content.unicode_len();
    if clen < plen {
        return None;
    }
    let mut i: usize = 0;
    while i < plen
        invariant
            0 <= i <= plen,
            plen == prefix@.len(),
            clen == content@.len(),
            plen <= clen,
            forall|j: int| 0 <= j < i ==> content@[j] == prefix@[j],
        decreases plen - i,
    {
        if content.get_char(i) != prefix.get_char(i) {
            proof {
                assert(content@.take(plen as int)[i as int] != prefix@[i as int]);
            }
            return None;
        }
        i = i + 1;
    }
    proof {
        assert(content@.take(plen as int) =~= prefix@);
        lemma_split_words_nonempty(content@.skip(plen as int));
    }
    let rest = content.substring_char(plen, clen);
    proof {
        assert(rest@ =~= content@.skip(plen as int));
    }
    let mut words = split_words(rest);
    let name = words.remove(0);
    Some(ParsedCommand { name, args: words })
}

} // verus!
