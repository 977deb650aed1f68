//! Reading what the tool lists: lines, chain names, and whether a rule is
//! among them.
use crate::failure::{Failure, FailureView};
use crate::outcome::{output_to_result, Outcome, OutcomeView};
use crate::pattern::texts;
use crate::text::{
    chars_of, contains, decode_lossy, find_in, join, rows, spaces, split, split_chars, string_of,
    trim, trim_spaces, utf8_lossy,
};
use vstd::prelude::*;
use vstd::string::StringExecFns;

verus! {

/// The lines of a listing: the text without the white space at its ends,
/// split at every line feed. An empty listing has one empty line.
pub open spec fn lines_of(text: Seq<char>) -> Seq<Seq<char>> {
    split(trim(text, spaces()), '\n')
}

/// The chain that a line declares: the second field of a line whose first
/// field, up to the first blank, is `-P` (a policy) or `-N` (a new chain).
pub open spec fn chain_of_line(line: Seq<char>) -> Option<Seq<char>> {
    let fields = split(line, ' ');
    if fields.len() > 1 && (fields[0] == seq!['-', 'P'] || fields[0] == seq!['-', 'N']) {
        Some(fields[1])
    } else {
        None
    }
}

/// The chains that the lines declare, in the order of the lines.
pub open spec fn chains_of(lines: Seq<Seq<char>>) -> Seq<Seq<char>>
    decreases lines.len(),
{
    if lines.len() == 0 {
        Seq::<Seq<char>>::empty()
    } else {
        match chain_of_line(lines.last()) {
            Some(chain) => chains_of(lines.drop_last()).push(chain),
            None => chains_of(lines.drop_last()),
        }
    }
}

/// The line by which a listing shows a rule of `chain`: `-A`, the chain and
/// the rule's tokens, with single blanks between them.
pub open spec fn rule_line(chain: Seq<char>, tokens: Seq<Seq<char>>) -> Seq<char> {
    join(seq!["-A"@, chain] + tokens, ' ')
}

fn strings_of(pieces: &Vec<Vec<char>>) -> (r: Vec<String>)
    ensures
        texts(r@) == rows(pieces@),
{
    let mut r: Vec<String> = Vec::new();
    let mut i: usize = 0;
    while i < pieces.len()
        invariant
            i <= pieces.len(),
            r.len() == i,
            forall|k: int| 0 <= k < i ==> (#[trigger] r@[k])@ == pieces@[k]@,
        decreases pieces.len() - i,
    {
        let piece = &pieces[i];
        let s = string_of(piece, 0, piece.len());
        assert(piece@.subrange(0, piece.len() as int) =~= piece@);
        r.push(s);
        i += 1;
    }
    assert(texts(r@) =~= rows(pieces@));
    r
}

/// Splits the text of a listing into its lines.
pub fn lines(text: &str) -> (r: Vec<String>)
    ensures
        texts(r@) == lines_of(text@),
{
    let all = chars_of(text);
    let kept = trim_spaces(&all);
    let pieces = split_chars(&kept, '\n');
    strings_of(&pieces)
}

fn is_flag(field: &Vec<char>, letter: char) -> (r: bool)
    ensures
        r == (field@ == seq!['-', letter]),
{
    if field.len() == 2 && field[0] == '-' && field[1] == letter {
        assert(field@ =~= seq!['-', letter]);
        true
    } else {
        false
    }
}

/// The names of the chains that the text of a listing declares.
pub fn chain_names(text: &str) -> (r: Vec<String>)
    ensures
        texts(r@) == chains_of(lines_of(text@)),
{
    let all = chars_of(text);
    let kept = trim_spaces(&all);
    let rows_found = split_chars(&kept, '\n');
    let mut r: Vec<String> = Vec::new();
    let mut i: usize = 0;
    assert(rows(rows_found@).take(0) =~= Seq::<Seq<char>>::empty());
    while i < rows_found.len()
        invariant
            i <= rows_found.len(),
            texts(r@) == chains_of(rows(rows_found@).take(i as int)),
        decreases rows_found.len() - i,
    {
        let fields = split_chars(&rows_found[i], ' ');
        proof {
            let upto = rows(rows_found@).take(i + 1);
            assert(upto.drop_last() =~= rows(rows_found@).take(i as int));
            assert(upto.last() == rows_found@[i as int]@);
        }
        if fields.len() > 1 && (is_flag(&fields[0], 'P') || is_flag(&fields[0], 'N')) {
            let name = &fields[1];
            let s = string_of(name, 0, name.len());
            assert(name@.subrange(0, name.len() as int) =~= name@);
            let ghost before = texts(r@);
            r.push(s);
            assert(texts(r@) =~= before.push(name@));
        }
        i += 1;
    }
    assert(rows(rows_found@).take(i as int) =~= rows(rows_found@));
    r
}

/// Joining one more word puts one separator before it.
pub proof fn lemma_join_push(words: Seq<Seq<char>>, word: Seq<char>, sep: char)
    requires
        words.len() >= 1,
    ensures
        join(words.push(word), sep) == join(words, sep).push(sep) + word,
{
    assert(words.push(word).drop_last() =~= words);
}

/// Writes the line by which a listing shows the rule `tokens` of `chain`.
pub fn line_of_rule(chain: &str, tokens: &Vec<String>) -> (line: String)
    ensures
        line@ == rule_line(chain@, texts(tokens@)),
{
    let mut line = String::from_str("-A");
    line.push(' ');
    line.append(chain);
    proof {
        assert(seq!["-A"@].push(chain@) =~= seq!["-A"@, chain@]);
        lemma_join_push(seq!["-A"@], chain@, ' ');
        assert(seq!["-A"@, chain@] + texts(tokens@).take(0) =~= seq!["-A"@, chain@]);
    }
    let mut i: usize = 0;
    while i < tokens.len()
        invariant
            i <= tokens.len(),
            line@ == join(seq!["-A"@, chain@] + texts(tokens@).take(i as int), ' '),
        decreases tokens.len() - i,
    {
        proof {
            let sofar = seq!["-A"@, chain@] + texts(tokens@).take(i as int);
            lemma_join_push(sofar, tokens@[i as int]@, ' ');
            assert(sofar.push(tokens@[i as int]@) =~= seq!["-A"@, chain@] + texts(tokens@).take(
                i + 1,
            ));
        }
        line.push(' ');
        line.append(tokens[i].as_str());
        i += 1;
    }
    assert(texts(tokens@).take(i as int) =~= texts(tokens@));
    line
}

/// Whether the text of a listing shows `line`.
pub fn shows(text: &str, line: &str) -> (r: bool)
    ensures
        r == contains(text@, line@),
{
    let hay = chars_of(text);
    let needle = chars_of(line);
    find_in(&hay, &needle)
}

/// The lines that a listing run gives: those of its standard output if it
/// succeeded, else the failure with its exit code and standard error.
pub open spec fn listed(outcome: OutcomeView) -> Result<Seq<Seq<char>>, FailureView> {
    if outcome.succeeded() {
        Ok(lines_of(utf8_lossy(outcome.stdout)))
    } else {
        Err(outcome.failure())
    }
}

/// Reads the lines of a listing run. A run that did not succeed is a
/// failure, whatever it wrote to standard output.
pub fn get_list(outcome: &Outcome) -> (r: Result<Vec<String>, Failure>)
    ensures
        match r {
            Ok(items) => listed(outcome@) == Ok::<Seq<Seq<char>>, FailureView>(texts(items@)),
            Err(e) => listed(outcome@) == Err::<Seq<Seq<char>>, FailureView>(e@),
        },
{
    match output_to_result(outcome) {
        Ok(_) => {
            let text = decode_lossy(&outcome.stdout);
            Ok(lines(text.as_str()))
        },
        Err(e) => Err(e),
    }
}

} // verus!
