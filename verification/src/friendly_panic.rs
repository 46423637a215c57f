//! Errors that the user can fix, and the text that explains them.
use vstd::prelude::*;
use crate::text::{decimal, to_decimal};

verus! {

/// An error that stops the program, with what the user may do about it.
#[derive(Debug, Clone)]
pub struct UserPanic {
    pub error_msg: &'static str,
    pub fix_instructions: Option<Vec<Instructions>>,
}

/// One way to fix an error: an opening sentence and the steps to take.
#[derive(Debug, Clone)]
pub struct Instructions {
    pub opener: &'static str,
    pub instructions: Option<Vec<&'static str>>,
}

/// The steps, one per line, each indented and numbered from 1.
pub open spec fn steps_text(steps: Seq<&'static str>) -> Seq<char>
    decreases steps.len(),
{
    if steps.len() == 0 {
        Seq::empty()
    } else {
        steps_text(steps.drop_last()) + "\t"@ + decimal(steps.len()) + ". "@ + steps.last()@ + "\n"@
    }
}

/// The text of one way to fix an error.
pub open spec fn instructions_text(i: Instructions) -> Seq<char> {
    match i.instructions {
        Some(steps) => i.opener@ + "\n"@ + steps_text(steps@),
        None => i.opener@ + "\n"@,
    }
}

/// The ways to fix an error, numbered from 1.
pub open spec fn fixes_text(fixes: Seq<Instructions>) -> Seq<char>
    decreases fixes.len(),
{
    if fixes.len() == 0 {
        Seq::empty()
    } else {
        fixes_text(fixes.drop_last()) + decimal(fixes.len()) + ".  "@ + instructions_text(fixes.last()) + "\n"@
    }
}

/// The text shown when the program stops on an error.
pub open spec fn panic_text(p: UserPanic) -> Seq<char> {
    "Whoops!\nUnrecoverable error occerred\n\n"@ + match p.fix_instructions {
        None => "It seems like an error that can't be fixed by you!\nPlease follow the following instructions to submit a Bug report to Developer\n"@,
        Some(fixes) => "It seems like an error that can be fixed by you!\nPlease follow the following instructions to try and fix the bug\n"@
            + fixes_text(fixes@)
            + "if you are unable to fix errors after following the fix steps.\nPlease Submit a Bug Report to the Developer\n"@,
    } + "Developer contact Steps\n"@
}

impl Instructions {
    /// The text of this way to fix an error.
    pub fn text(&self) -> (r: String)
        ensures
            r@ == instructions_text(*self),
    {
        let mut s = String::from_str(self.opener).concat("\n");
        match &self.instructions {
            Some(steps) => {
                let mut i: usize = 0;
                let ghost head = s@;
                while i < steps.len()
                    invariant
                        i <= steps@.len(),
                        head == self.opener@ + "\n"@,
                        s@ == head + steps_text(steps@.take(i as int)),
                    decreases steps.len() - i,
                {
                    proof {
                        assert(steps@.take(i + 1).drop_last() =~= steps@.take(i as int));
                        assert(steps@.take(i + 1).last() == steps@[i as int]);
                    }
                    s = s.concat("\t");
                    let num = to_decimal((i + 1) as u64);
                    s = s.concat(num.as_str()).concat(". ").concat(steps[i]).concat("\n");
                    i = i + 1;
                }
                assert(steps@.take(steps.len() as int) =~= steps@);
            },
            None => {},
        }
        s
    }
}

impl UserPanic {
    /// The text shown when the program stops on this error.
    pub fn text(&self) -> (r: String)
        ensures
            r@ == panic_text(*self),
    {
        let mut s = String::from_str("Whoops!\nUnrecoverable error occerred\n\n");
        match &self.fix_instructions {
            None => {
                s = s.concat("It seems like an error that can't be fixed by you!\nPlease follow the following instructions to submit a Bug report to Developer\n");
            },
            Some(fixes) => {
                s = s.concat("It seems like an error that can be fixed by you!\nPlease follow the following instructions to try and fix the bug\n");
                let ghost head = s@;
                let mut i: usize = 0;
                while i < fixes.len()
                    invariant
                        i <= fixes@.len(),
                        s@ == head + fixes_text(fixes@.take(i as int)),
                    decreases fixes.len() - i,
                {
                    proof {
                        assert(fixes@.take(i + 1).drop_last() =~= fixes@.take(i as int));
                        assert(fixes@.take(i + 1).last() == fixes@[i as int]);
                    }
                    let num = to_decimal((i + 1) as u64);
                    let fix = fixes[i].text();
                    s = s.concat(num.as_str()).concat(".  ").concat(fix.as_str()).concat("\n");
                    i = i + 1;
                }
                assert(fixes@.take(fixes.len() as int) =~= fixes@);
                s = s.concat("if you are unable to fix errors after following the fix steps.\nPlease Submit a Bug Report to the Developer\n");
            },
        }
        s.concat("Developer contact Steps\n")
    }
}


/// The error raised when the history file cannot be written.
pub fn history_panic() -> (p: UserPanic)
    ensures
        p.error_msg@ == "The program failed to Open History File."@,
        p.fix_instructions is Some,
        p.fix_instructions->0@.len() == 2,
        p.fix_instructions->0@[0].opener@ == "Check if the History File exists.\nNote: if The location for shared files is not specified then by default the file is in $HOME/.local/share/yt"@,
        p.fix_instructions->0@[0].instructions is Some,
        p.fix_instructions->0@[0].instructions->0@.map_values(|s: &str| s@)
            == seq!["Simply Create a new file in the directory with the name of history.txt"@],
        p.fix_instructions->0@[1].opener@ == "Check The permissions of the History file"@,
        p.fix_instructions->0@[1].instructions is Some,
        p.fix_instructions->0@[1].instructions->0@.map_values(|s: &str| s@)
            == seq![
                "Go to the directory of the history file"@,
                "Open the terminal and enter \"ls -l\""@,
                "make sure that permissions are in -rw-r--r-- format"@,
                "you can do this by running chmod +rw history.txt"@,
            ],
{
    let first = Instructions {
        opener: "Check if the History File exists.\nNote: if The location for shared files is not specified then by default the file is in $HOME/.local/share/yt",
        instructions: Some(vec!["Simply Create a new file in the directory with the name of history.txt"]),
    };
    let second = Instructions {
        opener: "Check The permissions of the History file",
        instructions: Some(vec![
            "Go to the directory of the history file",
            "Open the terminal and enter \"ls -l\"",
            "make sure that permissions are in -rw-r--r-- format",
            "you can do this by running chmod +rw history.txt",
        ]),
    };
    let p = UserPanic {
        error_msg: "The program failed to Open History File.",
        fix_instructions: Some(vec![first, second]),
    };
    assert(p.fix_instructions->0@[0].instructions->0@.map_values(|s: &str| s@)
        =~= seq!["Simply Create a new file in the directory with the name of history.txt"@]);
    assert(p.fix_instructions->0@[1].instructions->0@.map_values(|s: &str| s@)
        =~= seq![
            "Go to the directory of the history file"@,
            "Open the terminal and enter \"ls -l\""@,
            "make sure that permissions are in -rw-r--r-- format"@,
            "you can do this by running chmod +rw history.txt"@,
        ]);
    p
}

/// The error raised when the watch-later file cannot be written.
pub fn watch_panic() -> (p: UserPanic)
    ensures
        p.error_msg@ == "The program failed to Open Watch Later File."@,
        p.fix_instructions is Some,
        p.fix_instructions->0@.len() == 2,
        p.fix_instructions->0@[0].opener@ == "Check if the watch_list.txt File exists.\nNote: if The location for shared files is not specified then by default the file is in $HOME/.local/share/yt"@,
        p.fix_instructions->0@[0].instructions is Some,
        p.fix_instructions->0@[0].instructions->0@.map_values(|s: &str| s@)
            == seq!["Simply Create a new file in the directory with the name  watch_list.txt"@],
        p.fix_instructions->0@[1].opener@ == "Check The permissions of the Watch List file"@,
        p.fix_instructions->0@[1].instructions is Some,
        p.fix_instructions->0@[1].instructions->0@.map_values(|s: &str| s@)
            == seq![
                "Go to the directory of the watch file"@,
                "Open the terminal and enter \"ls -l\""@,
                "make sure that permissions are in -rw-r--r-- format"@,
                "you can do this by running chmod +rw watch_list.txt"@,
            ],
{
    let first = Instructions {
        opener: "Check if the watch_list.txt File exists.\nNote: if The location for shared files is not specified then by default the file is in $HOME/.local/share/yt",
        instructions: Some(vec!["Simply Create a new file in the directory with the name  watch_list.txt"]),
    };
    let second = Instructions {
        opener: "Check The permissions of the Watch List file",
        instructions: Some(vec![
            "Go to the directory of the watch file",
            "Open the terminal and enter \"ls -l\"",
            "make sure that permissions are in -rw-r--r-- format",
            "you can do this by running chmod +rw watch_list.txt",
        ]),
    };
    let p = UserPanic {
        error_msg: "The program failed to Open Watch Later File.",
        fix_instructions: Some(vec![first, second]),
    };
    assert(p.fix_instructions->0@[0].instructions->0@.map_values(|s: &str| s@)
        =~= seq!["Simply Create a new file in the directory with the name  watch_list.txt"@]);
    assert(p.fix_instructions->0@[1].instructions->0@.map_values(|s: &str| s@)
        =~= seq![
            "Go to the directory of the watch file"@,
            "Open the terminal and enter \"ls -l\""@,
            "make sure that permissions are in -rw-r--r-- format"@,
            "you can do this by running chmod +rw watch_list.txt"@,
        ]);
    p
}

} // verus!
