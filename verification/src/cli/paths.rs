//! Where the command line keeps its files.
use crate::daemon::building;
use crate::daemon::laws;
use crate::text;
use vstd::prelude::*;

verus! {

/// The directory below the user's home that holds the program's files, or one below `/tmp`
/// for a user without a home.
pub open spec fn data_dir(home: Option<Seq<char>>) -> Seq<char> {
    building::path_below(
        match home {
            Some(dir) => dir,
            None => "/tmp"@,
        },
        ".bubbaloop"@,
    )
}

/// The directory that holds the log of a server on standard input and output.
pub fn mcp_log_dir(home: Option<&str>) -> (r: String)
    ensures
        r@ == data_dir(text::opt_str_view(home)),
{
    match home {
        Some(dir) => building::join_path(dir, ".bubbaloop"),
        None => building::join_path("/tmp", ".bubbaloop"),
    }
}

/// The log of a server on standard input and output, in the directory that holds it.
pub fn mcp_log_path(dir: &str) -> (r: String)
    ensures
        r@ == building::path_below(dir@, "mcp-stdio.log"@),
{
    building::join_path(dir, "mcp-stdio.log")
}

/// The directory for certificates: the one asked for, else one below the user's home.
pub fn cert_dir(output_dir: Option<String>, home: Option<&str>) -> (r: String)
    ensures
        match output_dir {
            Some(dir) => r == dir,
            None => r@ == building::path_below(
                match home {
                    Some(dir) => dir@,
                    None => "/home/user"@,
                },
                ".bubbaloop/certs"@,
            ),
        },
{
    match output_dir {
        Some(dir) => dir,
        None => match home {
            Some(dir) => building::join_path(dir, ".bubbaloop/certs"),
            None => building::join_path("/home/user", ".bubbaloop/certs"),
        },
    }
}

/// The program's files lie in one directory below the user's home, or below `/tmp` for a user
/// without one; certificates lie there too unless another place is asked for.
pub proof fn files_lie_below_home(
    home: Seq<char>,
    asked: Option<String>,
    user: Option<&str>,
    certs: String,
)
    requires
        home.len() > 0,
        home.last() != '/',
        call_ensures(cert_dir, (asked, user), certs),
    ensures
        data_dir(Some(home)) == home + "/.bubbaloop"@,
        data_dir(None) == "/tmp/.bubbaloop"@,
        asked is Some ==> certs == asked->0,
        asked is None && user is Some && user->0@ == home ==> certs@ == home
            + "/.bubbaloop/certs"@,
        asked is None && user is None ==> certs@ == "/home/user/.bubbaloop/certs"@,
{
    reveal_strlit("/tmp");
    reveal_strlit("/home/user");
    reveal_strlit(".bubbaloop");
    reveal_strlit("/.bubbaloop");
    reveal_strlit(".bubbaloop/certs");
    reveal_strlit("/.bubbaloop/certs");
    reveal_strlit("/tmp/.bubbaloop");
    reveal_strlit("/home/user/.bubbaloop/certs");
    laws::paths_lie_below_directories(home, ".bubbaloop"@);
    laws::paths_lie_below_directories(home, ".bubbaloop/certs"@);
    laws::paths_lie_below_directories("/tmp"@, ".bubbaloop"@);
    laws::paths_lie_below_directories("/home/user"@, ".bubbaloop/certs"@);
    assert(home.push('/') + ".bubbaloop"@ =~= home + "/.bubbaloop"@);
    assert(home.push('/') + ".bubbaloop/certs"@ =~= home + "/.bubbaloop/certs"@);
    assert("/tmp"@.push('/') + ".bubbaloop"@ =~= "/tmp/.bubbaloop"@);
    assert("/home/user"@.push('/') + ".bubbaloop/certs"@ =~= "/home/user/.bubbaloop/certs"@);
}

} // verus!
