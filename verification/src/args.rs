//! Parsing of the compatibility command line.
//!
//! The interface mimics a classic selection-based clipboard tool: `-t`
//! names a MIME type, `-o` selects output mode, `-i` optionally names an
//! input file (when what follows is not another flag), `-selection` is
//! accepted and recorded for compatibility, and anything else is ignored.

use vstd::prelude::*;
use vstd::string::*;
use crate::mime::str_eq;

verus! {

/// The parsed invocation.
pub struct Args {
    pub selection: String,
    pub mime_type: Option<String>,
    pub mode_output: bool,
    pub input_file: Option<String>,
}

/// Abstract value of a parsed invocation.
#[verifier::ext_equal]
pub struct AbsArgs {
    pub selection: Seq<char>,
    pub mime_type: Option<Seq<char>>,
    pub mode_output: bool,
    pub input_file: Option<Seq<char>>,
}

impl Args {
    /// The abstract value.
    pub open spec fn abs(self) -> AbsArgs {
        AbsArgs {
            selection: self.selection@,
            mime_type: opt_view(self.mime_type),
            mode_output: self.mode_output,
            input_file: opt_view(self.input_file),
        }
    }
}

/// View of an optional string.
pub open spec fn opt_view(o: Option<String>) -> Option<Seq<char>> {
    match o {
        Some(s) => Some(s@),
        None => None,
    }
}

/// The state before any argument is read: the default selection, no type,
/// input mode, no input file.
pub open spec fn init_args() -> AbsArgs {
    AbsArgs {
        selection: "clipboard"@,
        mime_type: None,
        mode_output: false,
        input_file: None,
    }
}

/// The argument names another flag.
pub open spec fn starts_with_dash(a: Seq<char>) -> bool {
    a.len() > 0 && a[0] == '-'
}

/// One pass over the arguments: a value-taking flag consumes the next
/// argument when there is one and otherwise ends the parse; `-i` consumes
/// the next argument only when it is not itself a flag; unknown arguments
/// are ignored.
pub open spec fn parse_go(args: Seq<Seq<char>>, st: AbsArgs) -> AbsArgs
    decreases args.len(),
{
    if args.len() == 0 {
        st
    } else if args[0] == "-selection"@ {
        if args.len() >= 2 {
            parse_go(
                args.subrange(2, args.len() as int),
                AbsArgs { selection: args[1], ..st },
            )
        } else {
            st
        }
    } else if args[0] == "-t"@ {
        if args.len() >= 2 {
            parse_go(
                args.subrange(2, args.len() as int),
                AbsArgs { mime_type: Some(args[1]), ..st },
            )
        } else {
            st
        }
    } else if args[0] == "-o"@ {
        parse_go(args.drop_first(), AbsArgs { mode_output: true, ..st })
    } else if args[0] == "-i"@ {
        if args.len() >= 2 && !starts_with_dash(args[1]) {
            parse_go(
                args.subrange(2, args.len() as int),
                AbsArgs { input_file: Some(args[1]), ..st },
            )
        } else {
            parse_go(args.drop_first(), st)
        }
    } else {
        parse_go(args.drop_first(), st)
    }
}

/// Parse the arguments that follow the program name.
pub fn parse_args(argv: &Vec<String>) -> (r: Args)
    ensures
        r.abs() == parse_go(argv.deep_view(), init_args()),
{
    let ghost dv = argv.deep_view();
    let mut selection = String::from_str("clipboard");
    let mut mime_type: Option<String> = None;
    let mut mode_output = false;
    let mut input_file: Option<String> = None;
    let mut i: usize = 0;
    proof {
        assert(dv.subrange(0, dv.len() as int) =~= dv);
    }
    while i < argv.len()
        invariant
            0 <= i <= argv.len(),
            dv == argv.deep_view(),
            parse_go(
                dv.subrange(i as int, dv.len() as int),
                AbsArgs {
                    selection: selection@,
                    mime_type: opt_view(mime_type),
                    mode_output: mode_output,
                    input_file: opt_view(input_file),
                },
            ) =~= parse_go(dv, init_args()),
        decreases argv.len() - i,
    {
        let ghost rem = dv.subrange(i as int, dv.len() as int);
        proof {
            assert(rem[0] == dv[i as int]);
            assert(dv[i as int] == argv@[i as int]@);
            assert(rem.drop_first() =~= dv.subrange(i as int + 1, dv.len() as int));
            if rem.len() >= 2 {
                assert(rem.subrange(2, rem.len() as int) =~= dv.subrange(
                    i as int + 2,
                    dv.len() as int,
                ));
                assert(rem[1] == dv[i as int + 1]);
            }
        }
        let a = &argv[i];
        if str_eq(a.as_str(), "-selection") {
            if i + 1 < argv.len() {
                selection = argv[i + 1].clone();
                i += 2;
            } else {
                i += 1;
            }
        } else if str_eq(a.as_str(), "-t") {
            if i + 1 < argv.len() {
                mime_type = Some(argv[i + 1].clone());
                i += 2;
            } else {
                i += 1;
            }
        } else if str_eq(a.as_str(), "-o") {
            mode_output = true;
            i += 1;
        } else if str_eq(a.as_str(), "-i") {
            let take = if i + 1 < argv.len() {
                let p = &argv[i + 1];
                let pn = p.as_str().unicode_len();
                !(pn > 0 && p.as_str().get_char(0) == '-')
            } else {
                false
            };
            if take {
                input_file = Some(argv[i + 1].clone());
                i += 2;
            } else {
                i += 1;
            }
        } else {
            i += 1;
        }
    }
    proof {
        assert(dv.subrange(i as int, dv.len() as int).len() == 0);
    }
    Args { selection, mime_type, mode_output, input_file }
}

} // verus!
