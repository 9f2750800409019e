use vstd::prelude::*;

verus! {

/// One operation of the client, with its arguments as they were given.
#[derive(Debug, PartialEq, Eq)]
pub enum Command {
    Add { keypair_path: String, url: String, title: String },
    Close { keypair_path: String, address: String },
    ReadPda { address: String },
    NoOp,
}

/// An operation was named but one of its positional arguments is missing.
#[derive(Debug, Clone, Copy, PartialEq, Eq, Structural)]
pub enum ArgError {
    MissingArgument,
}

/// Route a process argument list (program name first) to an operation. The
/// second token selects `add`, `close` or `read-pda`; any other token, or
/// none, is a silent no-op. The remaining tokens are taken positionally, and
/// an operation given too few of them is refused.
pub fn parse_command(args: &Vec<String>) -> (r: Result<Command, ArgError>)
    ensures
        args@.len() < 2 ==> r is Ok && r->Ok_0 is NoOp,
        args@.len() >= 2 && args@[1]@ == "add"@ ==> {
            &&& args@.len() >= 5 ==> r is Ok && (r->Ok_0 matches Command::Add {
                keypair_path,
                url,
                title,
            } && keypair_path@ == args@[2]@ && url@ == args@[3]@ && title@ == args@[4]@)
            &&& args@.len() < 5 ==> r == Err::<Command, ArgError>(ArgError::MissingArgument)
        },
        args@.len() >= 2 && args@[1]@ == "close"@ ==> {
            &&& args@.len() >= 4 ==> r is Ok && (r->Ok_0 matches Command::Close {
                keypair_path,
                address,
            } && keypair_path@ == args@[2]@ && address@ == args@[3]@)
            &&& args@.len() < 4 ==> r == Err::<Command, ArgError>(ArgError::MissingArgument)
        },
        args@.len() >= 2 && args@[1]@ == "read-pda"@ ==> {
            &&& args@.len() >= 3 ==> r is Ok && (r->Ok_0 matches Command::ReadPda { address }
                && address@ == args@[2]@)
            &&& args@.len() < 3 ==> r == Err::<Command, ArgError>(ArgError::MissingArgument)
        },
        args@.len() >= 2 && args@[1]@ != "add"@ && args@[1]@ != "close"@ && args@[1]@
            != "read-pda"@ ==> r is Ok && r->Ok_0 is NoOp,
{
    proof {
        reveal_strlit("add");
        reveal_strlit("close");
        reveal_strlit("read-pda");
        assert("add"@.len() == 3);
        assert("close"@.len() == 5);
        assert("read-pda"@.len() == 8);
    }
    if args.len() < 2 {
        return Ok(Command::NoOp);
    }
    let add_op: String = "add".to_owned();
    let close_op: String = "close".to_owned();
    let read_op: String = "read-pda".to_owned();
    if args[1] == add_op {
        if args.len() < 5 {
            return Err(ArgError::MissingArgument);
        }
        Ok(
            Command::Add {
                keypair_path: args[2].clone(),
                url: args[3].clone(),
                title: args[4].clone(),
            },
        )
    } else if args[1] == close_op {
        if args.len() < 4 {
            return Err(ArgError::MissingArgument);
        }
        Ok(Command::Close { keypair_path: args[2].clone(), address: args[3].clone() })
    } else if args[1] == read_op {
        if args.len() < 3 {
            return Err(ArgError::MissingArgument);
        }
        Ok(Command::ReadPda { address: args[2].clone() })
    } else {
        Ok(Command::NoOp)
    }
}

} // verus!
