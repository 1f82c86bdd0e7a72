//! The Language Variant Resolver.
//!
//! A project is generated for exactly one of a closed set of source-language
//! variants. A user-supplied extension token picks the variant; matching is
//! ASCII-case-insensitive, and an unmatched token is rejected before anything
//! is created on disk.

use vstd::prelude::*;

use crate::error::ProjectError;

verus! {

/// The closed set of supported source-language variants.
#[derive(Debug, Clone, Copy, PartialEq, Eq, Structural)]
pub enum FileExtension {
    Cpp,
    C,
}

/// ASCII lower-casing of a single character; anything outside `'A'..='Z'`
/// is left alone.
pub open spec fn ascii_lower(c: char) -> char {
    if 'A' <= c && c <= 'Z' {
        (((c as u32) + 32) as char)
    } else {
        c
    }
}

/// ASCII lower-casing of a whole character sequence.
pub open spec fn lowercase(s: Seq<char>) -> Seq<char> {
    s.map_values(|c: char| ascii_lower(c))
}

/// Which variant a token selects: `"cpp"` (in any ASCII case) selects
/// [`FileExtension::Cpp`], `"c"` selects [`FileExtension::C`], and every
/// other token selects nothing.
pub open spec fn variant_for(token: Seq<char>) -> Option<FileExtension> {
    if lowercase(token) == "cpp"@ {
        Some(FileExtension::Cpp)
    } else if lowercase(token) == "c"@ {
        Some(FileExtension::C)
    } else {
        None
    }
}

/// A character lower-cases to `'c'` exactly when it is `'c'` or `'C'`.
proof fn lemma_lower_is_c(c: char)
    ensures
        ascii_lower(c) == 'c' <==> (c == 'c' || c == 'C'),
{
}

/// A character lower-cases to `'p'` exactly when it is `'p'` or `'P'`.
proof fn lemma_lower_is_p(c: char)
    ensures
        ascii_lower(c) == 'p' <==> (c == 'p' || c == 'P'),
{
}

/// Resolution only looks at tokens through their lower-cased form, so two
/// tokens with the same lower-cased form always resolve alike.
pub proof fn lemma_resolve_ignores_ascii_case(a: Seq<char>, b: Seq<char>)
    requires
        lowercase(a) == lowercase(b),
    ensures
        variant_for(a) == variant_for(b),
{
}

impl FileExtension {
    /// The lowercase token that names this variant; it is also the extension
    /// of the generated starter source file.
    pub open spec fn token(self) -> Seq<char> {
        match self {
            FileExtension::Cpp => "cpp"@,
            FileExtension::C => "c"@,
        }
    }

    /// The language identifier handed to the build descriptor's `project`
    /// declaration.
    pub open spec fn language_id(self) -> Seq<char> {
        match self {
            FileExtension::Cpp => "CXX"@,
            FileExtension::C => "C"@,
        }
    }

    /// The prefix of the language-specific build-descriptor variable names
    /// (standard, flags, extensions).
    pub open spec fn setting_prefix(self) -> Seq<char> {
        match self {
            FileExtension::Cpp => "CXX_"@,
            FileExtension::C => "C_"@,
        }
    }

    /// The language-standard version requested in the build descriptor.
    pub open spec fn standard_version(self) -> Seq<char> {
        match self {
            FileExtension::Cpp => "23"@,
            FileExtension::C => "17"@,
        }
    }

    /// The header-inclusion line of the starter source file.
    pub open spec fn include_statement(self) -> Seq<char> {
        match self {
            FileExtension::Cpp => "#include <iostream>"@,
            FileExtension::C => "#include <stdio.h>"@,
        }
    }

    /// The greeting line of the starter source file.
    pub open spec fn greeting_statement(self) -> Seq<char> {
        match self {
            FileExtension::Cpp => "std::cout << \"Hello, world!\" << std::endl;"@,
            FileExtension::C => "printf(\"Hello, world!\\n\");"@,
        }
    }

    /// Executable counterpart of [`FileExtension::token`].
    pub fn token_str(&self) -> (r: &'static str)
        ensures
            r@ == self.token(),
    {
        match self {
            FileExtension::Cpp => "cpp",
            FileExtension::C => "c",
        }
    }

    /// Executable counterpart of [`FileExtension::language_id`].
    pub fn language_id_str(&self) -> (r: &'static str)
        ensures
            r@ == self.language_id(),
    {
        match self {
            FileExtension::Cpp => "CXX",
            FileExtension::C => "C",
        }
    }

    /// Executable counterpart of [`FileExtension::setting_prefix`].
    pub fn setting_prefix_str(&self) -> (r: &'static str)
        ensures
            r@ == self.setting_prefix(),
    {
        match self {
            FileExtension::Cpp => "CXX_",
            FileExtension::C => "C_",
        }
    }

    /// Executable counterpart of [`FileExtension::standard_version`].
    pub fn standard_version_str(&self) -> (r: &'static str)
        ensures
            r@ == self.standard_version(),
    {
        match self {
            FileExtension::Cpp => "23",
            FileExtension::C => "17",
        }
    }

    /// Executable counterpart of [`FileExtension::include_statement`].
    pub fn include_statement_str(&self) -> (r: &'static str)
        ensures
            r@ == self.include_statement(),
    {
        match self {
            FileExtension::Cpp => "#include <iostream>",
            FileExtension::C => "#include <stdio.h>",
        }
    }

    /// Executable counterpart of [`FileExtension::greeting_statement`].
    pub fn greeting_statement_str(&self) -> (r: &'static str)
        ensures
            r@ == self.greeting_statement(),
    {
        match self {
            FileExtension::Cpp => "std::cout << \"Hello, world!\" << std::endl;",
            FileExtension::C => "printf(\"Hello, world!\\n\");",
        }
    }
}

/// Maps a user-supplied extension token to its variant, ASCII-case-
/// insensitively; any other token is rejected, carrying the offending token
/// back to the caller, before any directory or file is created.
pub fn resolve(token: &str) -> (r: Result<FileExtension, ProjectError>)
    ensures
        match variant_for(token@) {
            Some(v) => r == Ok::<FileExtension, ProjectError>(v),
            None => (r matches Err(ProjectError::UnsupportedExtension { token: t })
                && t@ == token@),
        },
{
    proof {
        reveal_strlit("cpp");
        reveal_strlit("c");
    }
    let n = token.unicode_len();
    if n == 3 {
        let c0 = token.get_char(0);
        let c1 = token.get_char(1);
        let c2 = token.get_char(2);
        proof {
            lemma_lower_is_c(c0);
            lemma_lower_is_p(c1);
            lemma_lower_is_p(c2);
        }
        if (c0 == 'c' || c0 == 'C') && (c1 == 'p' || c1 == 'P') && (c2 == 'p' || c2 == 'P') {
            proof {
                assert(lowercase(token@) =~= "cpp"@);
            }
            Ok(FileExtension::Cpp)
        } else {
            proof {
                assert(lowercase(token@).len() == token@.len());
                if c0 != 'c' && c0 != 'C' {
                    assert(lowercase(token@)[0] == ascii_lower(c0));
                } else if c1 != 'p' && c1 != 'P' {
                    assert(lowercase(token@)[1] == ascii_lower(c1));
                } else {
                    assert(lowercase(token@)[2] == ascii_lower(c2));
                }
                assert(lowercase(token@) != "cpp"@);
                assert(lowercase(token@) != "c"@);
            }
            Err(ProjectError::UnsupportedExtension { token: token.to_owned() })
        }
    } else if n == 1 {
        let c0 = token.get_char(0);
        proof {
            lemma_lower_is_c(c0);
        }
        if c0 == 'c' || c0 == 'C' {
            proof {
                assert(lowercase(token@) =~= "c"@);
            }
            Ok(FileExtension::C)
        } else {
            proof {
                assert(lowercase(token@).len() == token@.len());
                assert(lowercase(token@)[0] == ascii_lower(c0));
                assert(lowercase(token@) != "cpp"@);
                assert(lowercase(token@) != "c"@);
            }
            Err(ProjectError::UnsupportedExtension { token: token.to_owned() })
        }
    } else {
        proof {
            assert(lowercase(token@).len() == token@.len());
            assert(lowercase(token@) != "cpp"@);
            assert(lowercase(token@) != "c"@);
        }
        Err(ProjectError::UnsupportedExtension { token: token.to_owned() })
    }
}

} // verus!
