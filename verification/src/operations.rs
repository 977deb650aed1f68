//! The operations of a handle. Each one only says what is to be run and how
//! its result is to be read; see [`crate::command`].
use crate::command::{Action, ActionView, Listing, ListingView, Question, QuestionView, Stage, Wanted};
use crate::failure::{Failure, FailureView};
use crate::iptables::IPTables;
use crate::listing::{line_of_rule, rule_line};
use crate::pattern::texts;
use crate::text::{decimal, render};
use crate::tokenizer::{rule_tokens, split_quoted};
use vstd::prelude::*;
use vstd::string::StringExecFns;

verus! {

/// The program through which rules are dumped and loaded.
pub const SHELL: &'static str = "sh";

/// The arguments that name a table and one operation on it.
pub open spec fn table_args(table: Seq<char>, flag: Seq<char>) -> Seq<Seq<char>> {
    seq!["-t"@, table, flag]
}

/// The arguments that name a table, an operation and a chain.
pub open spec fn chain_args(table: Seq<char>, flag: Seq<char>, chain: Seq<char>) -> Seq<
    Seq<char>,
> {
    seq!["-t"@, table, flag, chain]
}

/// The arguments of an operation on one rule of a chain.
pub open spec fn rule_args(
    table: Seq<char>,
    flag: Seq<char>,
    chain: Seq<char>,
    tokens: Seq<Seq<char>>,
) -> Seq<Seq<char>> {
    chain_args(table, flag, chain) + tokens
}

/// The arguments that insert a rule at `position`.
pub open spec fn insert_args(
    table: Seq<char>,
    chain: Seq<char>,
    position: int,
    tokens: Seq<Seq<char>>,
) -> Seq<Seq<char>> {
    seq!["-t"@, table, "-I"@, chain, decimal(position)] + tokens
}

/// The question whether a chain exists: a listing of it succeeds.
pub open spec fn chain_question(table: Seq<char>, chain: Seq<char>) -> QuestionView {
    QuestionView { args: chain_args(table, "-L"@, chain), line: None }
}

/// The line for the shell that dumps the rules to `target`: those of one
/// table, or all.
pub open spec fn save_line(program: Seq<char>, table: Option<Seq<char>>, target: Seq<char>) -> Seq<
    char,
> {
    match table {
        Some(t) => program + " -t "@ + t + " > "@ + target,
        None => program + " > "@ + target,
    }
}

/// The line for the shell that loads the rules from `target`: those of one
/// table, or all.
pub open spec fn restore_line(
    program: Seq<char>,
    table: Option<Seq<char>>,
    target: Seq<char>,
) -> Seq<char> {
    match table {
        Some(t) => program + " -t "@ + t + " < "@ + target,
        None => program + " < "@ + target,
    }
}

fn push_string(args: &mut Vec<String>, word: String)
    ensures
        texts(final(args)@) == texts(old(args)@).push(word@),
{
    args.push(word);
    assert(texts(args@) =~= texts(old(args)@).push(word@));
}

fn push_word(args: &mut Vec<String>, word: &str)
    ensures
        texts(final(args)@) == texts(old(args)@).push(word@),
{
    push_string(args, String::from_str(word));
}

fn push_all(args: &mut Vec<String>, words: &Vec<String>)
    ensures
        texts(final(args)@) == texts(old(args)@) + texts(words@),
{
    let mut i: usize = 0;
    assert(texts(args@) =~= texts(old(args)@) + texts(words@).take(0));
    while i < words.len()
        invariant
            i <= words.len(),
            texts(args@) == texts(old(args)@) + texts(words@).take(i as int),
        decreases words.len() - i,
    {
        let ghost before = texts(args@);
        push_word(args, words[i].as_str());
        i += 1;
        assert(texts(args@) =~= texts(old(args)@) + texts(words@).take(i as int));
    }
    assert(texts(words@).take(i as int) =~= texts(words@));
}

/// Builds the arguments for an operation on a whole table.
pub fn args_for_table(table: &str, flag: &str) -> (args: Vec<String>)
    ensures
        texts(args@) == table_args(table@, flag@),
{
    let mut args: Vec<String> = Vec::new();
    assert(texts(args@) =~= Seq::<Seq<char>>::empty());
    push_word(&mut args, "-t");
    push_word(&mut args, table);
    push_word(&mut args, flag);
    assert(texts(args@) =~= table_args(table@, flag@));
    args
}

/// Builds the arguments for an operation on a chain.
pub fn args_for_chain(table: &str, flag: &str, chain: &str) -> (args: Vec<String>)
    ensures
        texts(args@) == chain_args(table@, flag@, chain@),
{
    let mut args = args_for_table(table, flag);
    push_word(&mut args, chain);
    assert(texts(args@) =~= chain_args(table@, flag@, chain@));
    args
}

/// Builds the arguments for an operation on the rule `tokens` of a chain.
pub fn args_for_rule(table: &str, flag: &str, chain: &str, tokens: &Vec<String>) -> (args: Vec<
    String,
>)
    ensures
        texts(args@) == rule_args(table@, flag@, chain@, texts(tokens@)),
{
    let mut args = args_for_chain(table, flag, chain);
    push_all(&mut args, tokens);
    args
}

/// Builds the arguments that insert the rule `tokens` at `position`.
pub fn args_for_insert(table: &str, chain: &str, position: i32, tokens: &Vec<String>) -> (args:
    Vec<String>)
    ensures
        texts(args@) == insert_args(table@, chain@, position as int, texts(tokens@)),
{
    let mut args = args_for_chain(table, "-I", chain);
    push_word(&mut args, render(position).as_str());
    assert(texts(args@) =~= seq!["-t"@, table@, "-I"@, chain@, decimal(position as int)]);
    push_all(&mut args, tokens);
    args
}

impl IPTables {
    /// How the handle asks whether the rule `tokens` is in a chain: with the
    /// tool's own check where it has one, else by looking for the rule's
    /// line in a listing of the table.
    pub open spec fn existence(self, table: Seq<char>, chain: Seq<char>, tokens: Seq<Seq<char>>)
        -> QuestionView {
        if self.has_check {
            QuestionView { args: rule_args(table, "-C"@, chain, tokens), line: None }
        } else {
            QuestionView { args: table_args(table, "-S"@), line: Some(rule_line(chain, tokens)) }
        }
    }

    /// The question whether the rule `tokens` is in a chain, for a tool
    /// without a check of its own: whether a listing of the table shows the
    /// rule's line.
    pub fn exists_old_version(&self, table: &str, chain: &str, tokens: &Vec<String>) -> (q:
        Question)
        ensures
            q@ == (QuestionView {
                args: table_args(table@, "-S"@),
                line: Some(rule_line(chain@, texts(tokens@))),
            }),
    {
        Question { args: args_for_table(table, "-S"), line: Some(line_of_rule(chain, tokens)) }
    }

    /// The question whether the rule `tokens` is in a chain.
    pub fn probe(&self, table: &str, chain: &str, tokens: &Vec<String>) -> (q: Question)
        ensures
            q@ == self.existence(table@, chain@, texts(tokens@)),
    {
        if !self.has_check {
            return self.exists_old_version(table, chain, tokens);
        }
        Question { args: args_for_rule(table, "-C", chain, tokens), line: None }
    }

    /// Asks whether `rule` is in `chain` of `table`.
    pub fn rule_exists(&self, table: &str, chain: &str, rule: &str) -> (r: Result<Question, Failure>)
        ensures
            match r {
                Ok(q) => rule_tokens(rule@) matches Some(tokens) && q@ == self.existence(
                    table@,
                    chain@,
                    tokens,
                ),
                Err(e) => rule_tokens(rule@) is None && e@ == FailureView::InvalidPattern,
            },
    {
        match split_quoted(rule) {
            Ok(tokens) => Ok(self.probe(table, chain, &tokens)),
            Err(e) => Err(e),
        }
    }

    /// Inserts `rule` into `chain` of `table` at `position`.
    pub fn insert(&self, table: &str, chain: &str, position: i32, rule: &str) -> (r: Result<
        Action,
        Failure,
    >)
        ensures
            match r {
                Ok(a) => rule_tokens(rule@) matches Some(tokens) && a@ == (ActionView::Run {
                    args: insert_args(table@, chain@, position as int, tokens),
                }),
                Err(e) => rule_tokens(rule@) is None && e@ == FailureView::InvalidPattern,
            },
    {
        match split_quoted(rule) {
            Ok(tokens) => Ok(Action::run(args_for_insert(table, chain, position, &tokens))),
            Err(e) => Err(e),
        }
    }

    /// Appends `rule` to `chain` of `table`.
    pub fn append(&self, table: &str, chain: &str, rule: &str) -> (r: Result<Action, Failure>)
        ensures
            match r {
                Ok(a) => rule_tokens(rule@) matches Some(tokens) && a@ == (ActionView::Run {
                    args: rule_args(table@, "-A"@, chain@, tokens),
                }),
                Err(e) => rule_tokens(rule@) is None && e@ == FailureView::InvalidPattern,
            },
    {
        match split_quoted(rule) {
            Ok(tokens) => Ok(Action::run(args_for_rule(table, "-A", chain, &tokens))),
            Err(e) => Err(e),
        }
    }

    /// Appends `rule` to `chain` of `table` unless it is there already, in
    /// which case the action ends with [`Failure::DuplicateRule`] and
    /// nothing is appended.
    pub fn append_unique(&self, table: &str, chain: &str, rule: &str) -> (r: Result<
        Action,
        Failure,
    >)
        ensures
            match r {
                Ok(a) => rule_tokens(rule@) matches Some(tokens) && a@ == (ActionView::AppendUnique {
                    probe: self.existence(table@, chain@, tokens),
                    append: rule_args(table@, "-A"@, chain@, tokens),
                    probing: true,
                }),
                Err(e) => rule_tokens(rule@) is None && e@ == FailureView::InvalidPattern,
            },
    {
        match split_quoted(rule) {
            Ok(tokens) => Ok(
                Action::append_unique(
                    self.probe(table, chain, &tokens),
                    args_for_rule(table, "-A", chain, &tokens),
                ),
            ),
            Err(e) => Err(e),
        }
    }

    /// Deletes `rule` from `chain` of `table`.
    pub fn delete(&self, table: &str, chain: &str, rule: &str) -> (r: Result<Action, Failure>)
        ensures
            match r {
                Ok(a) => rule_tokens(rule@) matches Some(tokens) && a@ == (ActionView::Run {
                    args: rule_args(table@, "-D"@, chain@, tokens),
                }),
                Err(e) => rule_tokens(rule@) is None && e@ == FailureView::InvalidPattern,
            },
    {
        match split_quoted(rule) {
            Ok(tokens) => Ok(Action::run(args_for_rule(table, "-D", chain, &tokens))),
            Err(e) => Err(e),
        }
    }

    /// Deletes `rule` from `chain` of `table` as long as it is there.
    pub fn delete_if_exsits(&self, table: &str, chain: &str, rule: &str) -> (r: Result<
        Action,
        Failure,
    >)
        ensures
            match r {
                Ok(a) => rule_tokens(rule@) matches Some(tokens) && a@ == (ActionView::DeleteIfExists {
                    probe: self.existence(table@, chain@, tokens),
                    delete: rule_args(table@, "-D"@, chain@, tokens),
                    probing: true,
                }),
                Err(e) => rule_tokens(rule@) is None && e@ == FailureView::InvalidPattern,
            },
    {
        match split_quoted(rule) {
            Ok(tokens) => Ok(
                Action::delete_if_exists(
                    self.probe(table, chain, &tokens),
                    args_for_rule(table, "-D", chain, &tokens),
                ),
            ),
            Err(e) => Err(e),
        }
    }

    /// Lists the rules of `chain` in `table`.
    pub fn list(&self, table: &str, chain: &str) -> (l: Listing)
        ensures
            l@ == (ListingView { args: chain_args(table@, "-S"@, chain@), wanted: Wanted::Lines }),
    {
        Listing { args: args_for_chain(table, "-S", chain), wanted: Wanted::Lines }
    }

    /// Lists the rules of `chain` in `table` with their counters.
    pub fn list_with_counters(&self, table: &str, chain: &str) -> (l: Listing)
        ensures
            l@ == (ListingView {
                args: seq!["-t"@, table@, "-v"@, "-S"@, chain@],
                wanted: Wanted::Lines,
            }),
    {
        let mut args = args_for_table(table, "-v");
        push_word(&mut args, "-S");
        push_word(&mut args, chain);
        assert(texts(args@) =~= seq!["-t"@, table@, "-v"@, "-S"@, chain@]);
        Listing { args, wanted: Wanted::Lines }
    }

    /// Lists the chains of `table`.
    pub fn list_chains(&self, table: &str) -> (l: Listing)
        ensures
            l@ == (ListingView { args: table_args(table@, "-S"@), wanted: Wanted::Chains }),
    {
        Listing { args: args_for_table(table, "-S"), wanted: Wanted::Chains }
    }

    /// Asks whether `chain` exists in `table`.
    pub fn chain_exists(&self, table: &str, chain: &str) -> (q: Question)
        ensures
            q@ == chain_question(table@, chain@),
    {
        Question { args: args_for_chain(table, "-L", chain), line: None }
    }

    /// Creates `chain` in `table`.
    pub fn new_chain(&self, table: &str, chain: &str) -> (a: Action)
        ensures
            a@ == (ActionView::Run { args: chain_args(table@, "-N"@, chain@) }),
    {
        Action::run(args_for_chain(table, "-N", chain))
    }

    /// Removes every rule of `chain` in `table`.
    pub fn flush_chain(&self, table: &str, chain: &str) -> (a: Action)
        ensures
            a@ == (ActionView::Run { args: chain_args(table@, "-F"@, chain@) }),
    {
        Action::run(args_for_chain(table, "-F", chain))
    }

    /// Renames `old_chain` of `table` to `new_chain`.
    pub fn rename_chain(&self, table: &str, old_chain: &str, new_chain: &str) -> (a: Action)
        ensures
            a@ == (ActionView::Run { args: seq!["-t"@, table@, "-E"@, old_chain@, new_chain@] }),
    {
        let mut args = args_for_chain(table, "-E", old_chain);
        push_word(&mut args, new_chain);
        assert(texts(args@) =~= seq!["-t"@, table@, "-E"@, old_chain@, new_chain@]);
        Action::run(args)
    }

    /// Deletes `chain` of `table`.
    pub fn delete_chain(&self, table: &str, chain: &str) -> (a: Action)
        ensures
            a@ == (ActionView::Run { args: chain_args(table@, "-X"@, chain@) }),
    {
        Action::run(args_for_chain(table, "-X", chain))
    }

    /// Flushes and then deletes `chain` of `table`, as long as it exists.
    pub fn flush_and_delete_chain(&self, table: &str, chain: &str) -> (a: Action)
        ensures
            a@ == (ActionView::FlushAndDeleteChain {
                probe: chain_question(table@, chain@),
                flush: chain_args(table@, "-F"@, chain@),
                delete: chain_args(table@, "-X"@, chain@),
                stage: Stage::Probing,
            }),
    {
        Action::flush_and_delete(
            self.chain_exists(table, chain),
            args_for_chain(table, "-F", chain),
            args_for_chain(table, "-X", chain),
        )
    }

    /// Removes every rule of every chain of `table`.
    pub fn flush_table(&self, table: &str) -> (a: Action)
        ensures
            a@ == (ActionView::Run { args: table_args(table@, "-F"@) }),
    {
        Action::run(args_for_table(table, "-F"))
    }

    /// Deletes every chain of `table` that the user made.
    pub fn delete_table(&self, table: &str) -> (a: Action)
        ensures
            a@ == (ActionView::Run { args: table_args(table@, "-X"@) }),
    {
        Action::run(args_for_table(table, "-X"))
    }

    /// Removes every rule of the default table.
    pub fn flush_all(&self) -> (a: Action)
        ensures
            a@ == (ActionView::Run { args: seq!["-F"@] }),
    {
        let mut args: Vec<String> = Vec::new();
        assert(texts(args@) =~= Seq::<Seq<char>>::empty());
        push_word(&mut args, "-F");
        assert(texts(args@) =~= seq!["-F"@]);
        Action::run(args)
    }

    /// Deletes every chain of the default table that the user made.
    pub fn delete_all(&self) -> (a: Action)
        ensures
            a@ == (ActionView::Run { args: seq!["-X"@] }),
    {
        let mut args: Vec<String> = Vec::new();
        assert(texts(args@) =~= Seq::<Seq<char>>::empty());
        push_word(&mut args, "-X");
        assert(texts(args@) =~= seq!["-X"@]);
        Action::run(args)
    }

    /// Sets the policy of `chain` in `table` to `target`.
    pub fn change_policy(&self, table: &str, chain: &str, target: &str) -> (a: Action)
        ensures
            a@ == (ActionView::Run { args: seq!["-t"@, table@, "-P"@, chain@, target@] }),
    {
        let mut args = args_for_chain(table, "-P", chain);
        push_word(&mut args, target);
        assert(texts(args@) =~= seq!["-t"@, table@, "-P"@, chain@, target@]);
        Action::run(args)
    }

    /// The version of the tool: major, minor, patch.
    pub fn get_iptables_version(self) -> (v: (isize, isize, isize))
        ensures
            v == (self.v_major, self.v_minor, self.v_patch),
    {
        (self.v_major, self.v_minor, self.v_patch)
    }

    /// The arguments for [`SHELL`] that dump the rules of `table` to the
    /// file `target`. No lock is taken for this.
    pub fn save_table(&self, table: &str, target: &str) -> (args: Vec<String>)
        ensures
            texts(args@) == seq!["-c"@, save_line(self.save_cmd@, Some(table@), target@)],
    {
        let mut line = String::from_str(self.save_cmd);
        line.append(" -t ");
        line.append(table);
        line.append(" > ");
        line.append(target);
        shell_args(line)
    }

    /// The arguments for [`SHELL`] that dump all rules to the file `target`.
    pub fn save_all(&self, target: &str) -> (args: Vec<String>)
        ensures
            texts(args@) == seq!["-c"@, save_line(self.save_cmd@, None, target@)],
    {
        let mut line = String::from_str(self.save_cmd);
        line.append(" > ");
        line.append(target);
        shell_args(line)
    }

    /// The arguments for [`SHELL`] that load the rules of `table` from the
    /// file `target`.
    pub fn restore_table(&self, table: &str, target: &str) -> (args: Vec<String>)
        ensures
            texts(args@) == seq!["-c"@, restore_line(self.restore_cmd@, Some(table@), target@)],
    {
        let mut line = String::from_str(self.restore_cmd);
        line.append(" -t ");
        line.append(table);
        line.append(" < ");
        line.append(target);
        shell_args(line)
    }

    /// The arguments for [`SHELL`] that load all rules from the file
    /// `target`.
    pub fn restore_all(&self, target: &str) -> (args: Vec<String>)
        ensures
            texts(args@) == seq!["-c"@, restore_line(self.restore_cmd@, None, target@)],
    {
        let mut line = String::from_str(self.restore_cmd);
        line.append(" < ");
        line.append(target);
        shell_args(line)
    }
}

fn shell_args(line: String) -> (args: Vec<String>)
    ensures
        texts(args@) == seq!["-c"@, line@],
{
    let mut args: Vec<String> = Vec::new();
    assert(texts(args@) =~= Seq::<Seq<char>>::empty());
    push_word(&mut args, "-c");
    push_string(&mut args, line);
    assert(texts(args@) =~= seq!["-c"@, line@]);
    args
}

} // verus!
