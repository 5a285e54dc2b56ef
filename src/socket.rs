use vstd::prelude::*;
use vstd::string::*;

verus! {

/// The file name of the control socket inside the runtime directory.
pub open spec fn socket_file_name() -> Seq<char> {
    seq!['r', 'a', 'v', 'e', 'n', 'w', 'm', '.', 's', 'o', 'c', 'k']
}

/// `name` inside the directory `dir`: joined by one `/`, unless `dir` is
/// empty or already ends with one.
pub open spec fn joined(dir: Seq<char>, name: Seq<char>) -> Seq<char> {
    if dir.len() == 0 || dir.last() == '/' {
        dir + name
    } else {
        dir + seq!['/'] + name
    }
}

/// The control socket's path: the override where there is one, else the
/// socket's file name inside the runtime directory; none without either.
pub open spec fn resolved_path(override_path: Option<Seq<char>>, runtime_dir: Option<Seq<char>>) -> Option<
    Seq<char>,
> {
    match override_path {
        Some(p) => Some(p),
        None => match runtime_dir {
            Some(d) => Some(joined(d, socket_file_name())),
            None => None,
        },
    }
}

/// The text of an optional string.
pub open spec fn string_view(s: Option<String>) -> Option<Seq<char>> {
    match s {
        Some(t) => Some(t@),
        None => None,
    }
}

/// The path of the control socket, which the window manager listens on and
/// the control tool connects to.
#[derive(Debug)]
pub struct SocketPath {
    path: String,
}

impl View for SocketPath {
    type V = Seq<char>;

    closed spec fn view(&self) -> Seq<char> {
        self.path@
    }
}

impl SocketPath {
    /// Resolves the socket path from the override variable's value, or
    /// failing that from the runtime directory variable's value.
    pub fn new(override_path: Option<String>, runtime_dir: Option<String>) -> (r: Option<
        SocketPath,
    >)
        ensures
            match r {
                Some(s) => resolved_path(string_view(override_path), string_view(runtime_dir))
                    == Some(s@),
                None => resolved_path(string_view(override_path), string_view(runtime_dir)) is None,
            },
    {
        match override_path {
            Some(path) => Some(SocketPath { path }),
            None => match runtime_dir {
                Some(dir) => {
                    let n = dir.as_str().unicode_len();
                    let needs_separator = n > 0 && dir.as_str().get_char(n - 1) != '/';
                    let base = if needs_separator {
                        dir.concat("/")
                    } else {
                        dir
                    };
                    let path = base.concat("ravenwm.sock");
                    proof {
                        reveal_strlit("/");
                        reveal_strlit("ravenwm.sock");
                        assert("ravenwm.sock"@ =~= socket_file_name());
                        assert(path@ =~= joined(runtime_dir->Some_0@, socket_file_name()));
                    }
                    Some(SocketPath { path })
                },
                None => None,
            },
        }
    }

    pub fn as_str(&self) -> (r: &str)
        ensures
            r@ == self@,
    {
        self.path.as_str()
    }
}

} // verus!
