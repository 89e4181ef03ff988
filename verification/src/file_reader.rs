//! Source-file dispatch by extension: a `.moo` file carries the
//! English-oriented dialect, a `.muu` file the Spanish-oriented one.

use vstd::prelude::*;
use vstd::string::StrSliceExecFns;
use crate::file_reader_errors::FileReaderError;
use crate::str_eq;

verus! {

/// A source file recognized by its extension, carrying its path.
pub enum FileType {
    Moo(String),
    Muu(String),
}

/// The index of the dot that starts a path's extension, scanning
/// backwards from position `i`: the last dot of the file name, unless the
/// dot opens the file name (a hidden file) or the name has no dot at all.
pub open spec fn ext_dot_index(p: Seq<char>, i: int) -> Option<int>
    decreases i + 1,
{
    if i < 0 || i >= p.len() {
        None
    } else if p[i] == '/' {
        None
    } else if p[i] == '.' {
        if i == 0 || p[i - 1] == '/' {
            None
        } else {
            Some(i)
        }
    } else {
        ext_dot_index(p, i - 1)
    }
}

/// Where the file name of a path ends: its length once trailing
/// separators are dropped.
pub open spec fn trimmed_end(p: Seq<char>) -> int
    decreases p.len(),
{
    if p.len() == 0 || p.last() != '/' {
        p.len() as int
    } else {
        trimmed_end(p.drop_last())
    }
}

/// The extension of a path: what follows the last dot of its file name —
/// the part after the last separator, ignoring trailing separators — and
/// none where the name has no dot or only its leading one. A name
/// consisting only of dots is read like any other name, so its leading
/// dot opens it and the rest may form an extension.
pub open spec fn extension_of(p: Seq<char>) -> Option<Seq<char>> {
    match ext_dot_index(p, trimmed_end(p) - 1) {
        Some(i) => Some(p.subrange(i + 1, trimmed_end(p))),
        None => None,
    }
}

impl FileType {
    /// Classifies a path by its extension: `.moo` and `.muu` are the two
    /// accepted source kinds; any other extension, or none, is refused.
    pub fn check_extension(path: &str) -> (r: Result<FileType, FileReaderError>)
        ensures
            ({
                let ext = extension_of(path@);
                match r {
                    Ok(FileType::Moo(s)) => ext == Some("moo"@) && s@ == path@,
                    Ok(FileType::Muu(s)) => ext == Some("muu"@) && s@ == path@,
                    Err(FileReaderError::WrongFileType(m)) => ext is Some && ext != Some("moo"@)
                        && ext != Some("muu"@) && m@
                        == "File must have .moo (English) or .muu (Español) extension"@,
                    Err(FileReaderError::Other(m)) => ext is None && m@ == "File has no extension"@,
                    _ => false,
                }
            }),
    {
        let n = path.unicode_len();
        let mut m: usize = n;
        proof {
            assert(path@.take(n as int) =~= path@);
        }
        while m > 0 && path.get_char(m - 1) == '/'
            invariant
                m <= n,
                n == path@.len(),
                trimmed_end(path@) == trimmed_end(path@.take(m as int)),
            decreases m,
        {
            proof {
                assert(path@.take(m as int).drop_last() =~= path@.take(m - 1));
            }
            m = m - 1;
        }
        proof {
            assert(trimmed_end(path@) == m);
        }
        let mut i: usize = m;
        while i > 0
            invariant
                i <= m <= n,
                n == path@.len(),
                trimmed_end(path@) == m,
                ext_dot_index(path@, m - 1) == ext_dot_index(path@, i - 1),
            decreases i,
        {
            i = i - 1;
            let c = path.get_char(i);
            if c == '/' {
                proof {
                    assert(ext_dot_index(path@, m - 1) is None);
                }
                return Err(FileReaderError::Other("File has no extension".to_owned()));
            }
            if c == '.' {
                if i == 0 || path.get_char(i - 1) == '/' {
                    proof {
                        assert(ext_dot_index(path@, m - 1) is None);
                    }
                    return Err(FileReaderError::Other("File has no extension".to_owned()));
                }
                let ext = path.substring_char(i + 1, m);
                proof {
                    assert(ext_dot_index(path@, m - 1) == Some(i as int));
                    assert(extension_of(path@) == Some(ext@));
                }
                if str_eq(ext, "moo") {
                    return Ok(FileType::Moo(path.to_owned()));
                } else if str_eq(ext, "muu") {
                    return Ok(FileType::Muu(path.to_owned()));
                } else {
                    return Err(
                        FileReaderError::WrongFileType(
                            "File must have .moo (English) or .muu (Español) extension".to_owned(),
                        ),
                    );
                }
            }
        }
        proof {
            assert(ext_dot_index(path@, m - 1) is None);
        }
        Err(FileReaderError::Other("File has no extension".to_owned()))
    }

    /// Accepts the text of an English-dialect source file, refusing an
    /// empty one.
    pub fn process_moo_file(content: &str) -> (r: Result<String, FileReaderError>)
        ensures
            match r {
                Ok(s) => content@.len() > 0 && s@ == content@,
                Err(e) => content@.len() == 0 && match e {
                    FileReaderError::EmptyFile(p) => p@ == Seq::<char>::empty(),
                    _ => false,
                },
            },
    {
        if content.is_empty() {
            Err(FileReaderError::EmptyFile(String::new()))
        } else {
            Ok(content.to_owned())
        }
    }

    /// Accepts the text of a Spanish-dialect source file, refusing an
    /// empty one.
    pub fn process_muu_file(content: &str) -> (r: Result<String, FileReaderError>)
        ensures
            match r {
                Ok(s) => content@.len() > 0 && s@ == content@,
                Err(e) => content@.len() == 0 && match e {
                    FileReaderError::EmptyFile(p) => p@ == Seq::<char>::empty(),
                    _ => false,
                },
            },
    {
        if content.is_empty() {
            Err(FileReaderError::EmptyFile(String::new()))
        } else {
            Ok(content.to_owned())
        }
    }
}

} // verus!
