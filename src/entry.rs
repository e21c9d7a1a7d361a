use vstd::prelude::*;
use vstd::string::StringExecFns;

verus! {

/// One candidate program invocation for opening a file.
#[derive(Debug, Clone)]
pub struct JoshutoMimetypeEntry {
    /// The command name or path to run.
    pub program: String,
    /// Arguments placed after `program`, in order; `None` means no arguments.
    pub args: Option<Vec<String>>,
    /// When true, the launched process is detached from the terminal.
    pub fork: Option<bool>,
    /// When true, the launched process's output is suppressed.
    pub silent: Option<bool>,
}

/// The arguments as they appear in the rendering: each one preceded by a space.
pub open spec fn spaced_args(args: Seq<String>) -> Seq<char>
    decreases args.len(),
{
    if args.len() == 0 {
        Seq::empty()
    } else {
        spaced_args(args.drop_last()) + seq![' '] + args.last()@
    }
}

/// The text between the brackets: `fork,` when forking, then `silent` when silent.
pub open spec fn flags_text(fork: Option<bool>, silent: Option<bool>) -> Seq<char> {
    (if fork == Some(true) { seq!['f', 'o', 'r', 'k', ','] } else { Seq::empty() })
        + (if silent == Some(true) { seq!['s', 'i', 'l', 'e', 'n', 't'] } else { Seq::empty() })
}

impl JoshutoMimetypeEntry {
    /// The one-line menu text of the entry: the program, its arguments, a tab,
    /// and the enabled flags in brackets.
    pub open spec fn rendered(&self) -> Seq<char> {
        self.program@
            + (match self.args {
                Some(a) => spaced_args(a@),
                None => Seq::empty(),
            })
            + seq!['\t', '[']
            + flags_text(self.fork, self.silent)
            + seq![']']
    }

    /// Renders the entry for display in a selection menu.
    pub fn to_display_string(&self) -> (r: String)
        ensures
            r@ == self.rendered(),
    {
        let mut s = self.program.clone();
        if let Some(a) = &self.args {
            let mut i: usize = 0;
            while i < a.len()
                invariant
                    i <= a@.len(),
                    s@ == self.program@ + spaced_args(a@.take(i as int)),
                decreases a@.len() - i,
            {
                proof {
                    assert(a@.take(i + 1).drop_last() =~= a@.take(i as int));
                    reveal_strlit(" ");
                }
                s.append(" ");
                s.append(a[i].as_str());
                i = i + 1;
            }
            proof {
                assert(a@.take(a@.len() as int) =~= a@);
            }
        }
        proof {
            reveal_strlit("\t[");
            reveal_strlit("fork,");
            reveal_strlit("silent");
            reveal_strlit("]");
        }
        s.append("\t[");
        if self.fork == Some(true) {
            s.append("fork,");
        }
        if self.silent == Some(true) {
            s.append("silent");
        }
        s.append("]");
        assert(s@ =~= self.rendered());
        s
    }
}

} // verus!
