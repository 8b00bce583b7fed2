//! The codesign run of a macOS signing, written as one command string.
use vstd::prelude::*;

use crate::command::{CommandLine, Invocation};
use crate::codesign::codesign_line;
use crate::text::{
    alternating, glue, is_blank, is_token, lemma_glued_words, lemma_token_words, separates,
    tokens_of, words,
};

verus! {

/// What codesign is to sign with: an identity and an entitlements file.
pub struct Codesign {
    pub signing_identity: String,
    pub entitlements: String,
}

/// The program and arguments that `execute::command` parses out of the
/// command string `text`.
pub uninterp spec fn parsed_command(text: Seq<char>) -> CommandLine;

/// Whether `s` holds no quote and no backslash.
pub open spec fn unquoted(s: Seq<char>) -> bool {
    forall|i: int| 0 <= i < s.len() ==> s[i] != '"' && s[i] != '\'' && s[i] != '\\'
}

/// Whether `s` can stand between single quotes as it is: it holds no single
/// quote and no backslash.
pub open spec fn quotable(s: Seq<char>) -> bool {
    forall|i: int| 0 <= i < s.len() ==> s[i] != '\'' && s[i] != '\\'
}

/// `head`, a space, `quoted` between single quotes, a space, and `tail`.
pub open spec fn quoted_form(head: Seq<char>, quoted: Seq<char>, tail: Seq<char>) -> Seq<char> {
    head + " '"@ + quoted + "' "@ + tail
}

/// The program (the first token) and the arguments (the other tokens); the
/// empty program where there is no token.
pub open spec fn command_of(tokens: Seq<Seq<char>>) -> CommandLine {
    if tokens.len() == 0 {
        CommandLine { program: Seq::empty(), args: Seq::empty() }
    } else {
        CommandLine { program: tokens[0], args: tokens.skip(1) }
    }
}

/// Parses the command string `text` into a program and its arguments with
/// `execute::command` (quotes group words; a backslash escapes the next
/// character). The contract claims that the result is the parse of `text`,
/// a function of `text` alone, and, for a text made of unquoted words around
/// one single-quoted part, what the source of `command_tokens` shows: the
/// tokens are the words before, the quoted part, and the words after.
#[verifier::external_body]
fn parse_command(text: &str) -> (r: Invocation)
    ensures
        r@ == parsed_command(text@),
        forall|head: Seq<char>, quoted: Seq<char>, tail: Seq<char>|
            text@ == #[trigger] quoted_form(head, quoted, tail) && unquoted(head) && quotable(
                quoted,
            ) && unquoted(tail) ==> r@ == command_of(words(head) + seq![quoted] + words(tail)),
{
    let command = execute::command(text);
    Invocation {
        program: command.get_program().to_string_lossy().into_owned(),
        args: command.get_args().map(|a| a.to_string_lossy().into_owned()).collect(),
    }
}

/// The part of the codesign command string before the quoted identity.
pub open spec fn codesign_head(entitlements: Seq<char>) -> Seq<char> {
    "codesign --entitlements "@ + entitlements
        + "  --force -v --options=runtime  --deep --timestamp --file-list - -s"@
}

/// A non-empty path without white space, quotes or backslashes.
pub open spec fn plain_path(s: Seq<char>) -> bool {
    is_token(s, false) && unquoted(s)
}

/// The part before the quoted identity, as pieces: its words and the blanks
/// between them.
pub open spec fn codesign_head_pieces(entitlements: Seq<char>) -> Seq<Seq<char>> {
    seq![
        "codesign"@,
        " "@,
        "--entitlements"@,
        " "@,
        entitlements,
        "  "@,
        "--force"@,
        " "@,
        "-v"@,
        " "@,
        "--options=runtime"@,
        "  "@,
        "--deep"@,
        " "@,
        "--timestamp"@,
        " "@,
        "--file-list"@,
        " "@,
        "-"@,
        " "@,
        "-s"@,
    ]
}

/// The words of the part before the quoted identity, for an entitlements
/// path without white space.
proof fn lemma_codesign_head_words(entitlements: Seq<char>)
    requires
        is_token(entitlements, false),
    ensures
        words(codesign_head(entitlements)) == seq![
            "codesign"@,
            "--entitlements"@,
            entitlements,
            "--force"@,
            "-v"@,
            "--options=runtime"@,
            "--deep"@,
            "--timestamp"@,
            "--file-list"@,
            "-"@,
            "-s"@,
        ],
{
    let ps = codesign_head_pieces(entitlements);
    reveal_strlit("codesign --entitlements ");
    reveal_strlit("  --force -v --options=runtime  --deep --timestamp --file-list - -s");
    reveal_strlit("codesign");
    reveal_strlit(" ");
    reveal_strlit("--entitlements");
    reveal_strlit("  ");
    reveal_strlit("--force");
    reveal_strlit("-v");
    reveal_strlit("--options=runtime");
    reveal_strlit("--deep");
    reveal_strlit("--timestamp");
    reveal_strlit("--file-list");
    reveal_strlit("-");
    reveal_strlit("-s");
    assert(glue(ps, 21) =~= codesign_head(entitlements)) by {
        reveal_with_fuel(glue, 22);
    }
    assert(alternating(ps, 21, false)) by {
        reveal_with_fuel(alternating, 22);
        assert(is_token("codesign"@, false));
        assert(is_blank(" "@, false));
        assert(separates(" "@[0], false));
        assert(!is_token(" "@, false));
        assert(is_token("--entitlements"@, false));
        assert(is_blank("  "@, false));
        assert(separates("  "@[0], false));
        assert(!is_token("  "@, false));
        assert(is_token("--force"@, false));
        assert(is_token("-v"@, false));
        assert(is_token("--options=runtime"@, false));
        assert(is_token("--deep"@, false));
        assert(is_token("--timestamp"@, false));
        assert(is_token("--file-list"@, false));
        assert(is_token("-"@, false));
        assert(is_token("-s"@, false));
    }
    lemma_glued_words(ps, 21, false);
    assert(tokens_of(ps, 21, false) =~= seq![
        "codesign"@,
        "--entitlements"@,
        entitlements,
        "--force"@,
        "-v"@,
        "--options=runtime"@,
        "--deep"@,
        "--timestamp"@,
        "--file-list"@,
        "-"@,
        "-s"@,
    ]) by {
        reveal_with_fuel(tokens_of, 22);
        assert(is_token("codesign"@, false));
        assert(is_blank(" "@, false));
        assert(separates(" "@[0], false));
        assert(!is_token(" "@, false));
        assert(is_token("--entitlements"@, false));
        assert(is_blank("  "@, false));
        assert(separates("  "@[0], false));
        assert(!is_token("  "@, false));
        assert(is_token("--force"@, false));
        assert(is_token("-v"@, false));
        assert(is_token("--options=runtime"@, false));
        assert(is_token("--deep"@, false));
        assert(is_token("--timestamp"@, false));
        assert(is_token("--file-list"@, false));
        assert(is_token("-"@, false));
        assert(is_token("-s"@, false));
    }
}

/// The codesign command string that signs `file` as `identity` with the
/// entitlements file `entitlements`.
pub open spec fn codesign_text(
    entitlements: Seq<char>,
    identity: Seq<char>,
    file: Seq<char>,
) -> Seq<char> {
    "codesign --entitlements "@ + entitlements
        + "  --force -v --options=runtime  --deep --timestamp --file-list - -s '"@ + identity
        + "' "@ + file
}

impl Codesign {
    /// Signing as `signing_identity` with the entitlements file `entitlements`.
    pub fn new(signing_identity: String, entitlements: String) -> (c: Codesign)
        ensures
            c.signing_identity@ == signing_identity@,
            c.entitlements@ == entitlements@,
    {
        Codesign { signing_identity, entitlements }
    }

    /// The command string that signs `file`.
    pub fn command_text(&self, file: &str) -> (t: String)
        ensures
            t@ == codesign_text(self.entitlements@, self.signing_identity@, file@),
    {
        let mut t = String::from_str("codesign --entitlements ");
        t.append(self.entitlements.as_str());
        t.append("  --force -v --options=runtime  --deep --timestamp --file-list - -s '");
        t.append(self.signing_identity.as_str());
        t.append("' ");
        t.append(file);
        t
    }

    /// The codesign run that signs `file`: the command string parsed into a
    /// program and its arguments. Where the entitlements path and `file`
    /// hold no quote or backslash and the identity no single quote or
    /// backslash, the identity is one argument, between the words of the
    /// part before it and the words of `file`; where the two paths are
    /// moreover non-empty and hold no white space, the run is the one that
    /// `crate::codesign::Codesign::sign` gives, argument for argument.
    pub fn sign(&self, file: &str) -> (r: Invocation)
        ensures
            r@ == parsed_command(codesign_text(self.entitlements@, self.signing_identity@, file@)),
            unquoted(self.entitlements@) && quotable(self.signing_identity@) && unquoted(file@)
                ==> r@ == command_of(
                words(codesign_head(self.entitlements@)) + seq![self.signing_identity@] + words(
                    file@,
                ),
            ),
            plain_path(self.entitlements@) && quotable(self.signing_identity@) && plain_path(file@)
                ==> r@ == codesign_line(self.entitlements@, self.signing_identity@, file@),
    {
        let text = self.command_text(file);
        proof {
            let head = codesign_head(self.entitlements@);
            assert(codesign_text(self.entitlements@, self.signing_identity@, file@) =~= quoted_form(
                head,
                self.signing_identity@,
                file@,
            )) by {
                reveal_strlit("  --force -v --options=runtime  --deep --timestamp --file-list - -s '");
                reveal_strlit("  --force -v --options=runtime  --deep --timestamp --file-list - -s");
                reveal_strlit(" '");
            }
            if unquoted(self.entitlements@) {
                reveal_strlit("codesign --entitlements ");
                reveal_strlit("  --force -v --options=runtime  --deep --timestamp --file-list - -s");
                let a = "codesign --entitlements "@;
                let b = "  --force -v --options=runtime  --deep --timestamp --file-list - -s"@;
                assert(unquoted(a));
                assert(unquoted(b));
                assert(unquoted(a + self.entitlements@));
                assert(unquoted(head));
            }
            if plain_path(self.entitlements@) && quotable(self.signing_identity@) && plain_path(
                file@,
            ) {
                lemma_codesign_head_words(self.entitlements@);
                lemma_token_words(file@, false);
                let tokens = words(head) + seq![self.signing_identity@] + words(file@);
                reveal_strlit("codesign");
                assert(command_of(tokens).args =~= codesign_line(
                    self.entitlements@,
                    self.signing_identity@,
                    file@,
                ).args);
            }
        }
        parse_command(text.as_str())
    }
}

} // verus!
