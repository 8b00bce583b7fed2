//! The temporary keychain that holds the signing certificate while an
//! application is signed, and the `security` commands that manage it.
use vstd::prelude::*;

use crate::command::{command_line, opt_view, push_arg, CommandLine, Invocation};
use crate::text::{
    chars_of, fields, find, lemma_position_found, split_words, first_line, join, join_path, line_one, position, remove_char,
    string_of, without_char,
};

verus! {

/// File name of the temporary keychain, in the working directory.
pub const KEYCHAIN_NAME: &'static str = "MyKeychain.keychain";

/// Password of the temporary keychain.
pub const KEYCHAIN_PASSWORD: &'static str = "temporaryPassword";

/// The certificate to import and the temporary keychain that is recorded
/// as present.
pub struct Security {
    /// The .p12 certificate file.
    pub certificate: String,
    /// The certificate's password.
    pub certificate_password: Option<String>,
    /// The temporary keychain file, while it is recorded as present.
    pub keychain: Option<String>,
    /// Where the temporary keychain file lives.
    pub keychain_file: String,
}

/// The mathematical value of a `Security`.
pub struct SecurityView {
    pub certificate: Seq<char>,
    pub certificate_password: Option<Seq<char>>,
    pub keychain: Option<Seq<char>>,
    pub keychain_file: Seq<char>,
}

impl View for Security {
    type V = SecurityView;

    open spec fn view(&self) -> SecurityView {
        SecurityView {
            certificate: self.certificate@,
            certificate_password: opt_view(self.certificate_password),
            keychain: opt_view(self.keychain),
            keychain_file: self.keychain_file@,
        }
    }
}

/// The `Security` that signing with `certificate` starts from, in the
/// working directory `current_dir`, where the temporary keychain file exists
/// there or not.
pub open spec fn initial_security(
    certificate: Seq<char>,
    certificate_password: Option<Seq<char>>,
    current_dir: Seq<char>,
    keychain_file_exists: bool,
) -> SecurityView {
    let file = join_path(current_dir, KEYCHAIN_NAME@);
    SecurityView {
        certificate,
        certificate_password,
        keychain: if keychain_file_exists {
            Some(file)
        } else {
            None
        },
        keychain_file: file,
    }
}

/// `security` run with `args`.
pub open spec fn security_line(args: Seq<Seq<char>>) -> CommandLine {
    command_line("security"@, args)
}

/// Deletes the keychain file `keychain`.
pub open spec fn delete_line(keychain: Seq<char>) -> CommandLine {
    security_line(seq!["delete-keychain"@, keychain])
}

/// Creates the keychain file `keychain`, locked with the temporary password.
pub open spec fn create_line(keychain: Seq<char>) -> CommandLine {
    security_line(seq!["create-keychain"@, "-p"@, KEYCHAIN_PASSWORD@, keychain])
}

/// Lists the keychains of the user domain.
pub open spec fn list_line() -> CommandLine {
    security_line(seq!["list-keychains"@, "-d"@, "user"@])
}

/// Sets the user domain's keychain list to `keychain` followed by
/// `keychains`, each an argument of its own.
pub open spec fn add_line(keychain: Seq<char>, keychains: Seq<Seq<char>>) -> CommandLine {
    security_line(seq!["list-keychains"@, "-d"@, "user"@, "-s"@, keychain] + keychains)
}

/// Removes the relock timeout of `keychain`.
pub open spec fn settings_line(keychain: Seq<char>) -> CommandLine {
    security_line(seq!["set-keychain-settings"@, keychain])
}

/// Unlocks `keychain` with the temporary password.
pub open spec fn unlock_line(keychain: Seq<char>) -> CommandLine {
    security_line(seq!["unlock-keychain"@, "-p"@, KEYCHAIN_PASSWORD@, keychain])
}

/// Imports `certificate`, whose password is `password`, into `keychain`,
/// for use by `/usr/bin/codesign`.
pub open spec fn import_line(
    certificate: Seq<char>,
    password: Seq<char>,
    keychain: Seq<char>,
) -> CommandLine {
    security_line(
        seq![
            "import"@,
            certificate,
            "-k"@,
            keychain,
            "-P"@,
            password,
            "-T"@,
            "/usr/bin/codesign"@,
        ],
    )
}

/// Lists the valid codesigning identities of `keychain`.
pub open spec fn find_line(keychain: Seq<char>) -> CommandLine {
    security_line(seq!["find-identity"@, "-v"@, "-p"@, "codesigning"@, keychain])
}

/// Lets codesign use the private key of `identity` in `keychain` without a
/// prompt; the keychain is opened with the temporary password.
pub open spec fn partition_line(identity: Seq<char>, keychain: Seq<char>) -> CommandLine {
    security_line(
        seq![
            "set-key-partition-list"@,
            "-S"@,
            "apple-tool:,apple:"@,
            "-s"@,
            "-k"@,
            KEYCHAIN_PASSWORD@,
            "-D"@,
            identity,
            "-t"@,
            "private"@,
            keychain,
        ],
    )
}

/// The certificate's password, or the empty string where there is none.
pub open spec fn password_or_empty(password: Option<Seq<char>>) -> Seq<char> {
    match password {
        Some(p) => p,
        None => ""@,
    }
}

/// The keychains named by `list-keychains` output: the output with every
/// `"` removed, split as the shell splits a command's output (at spaces,
/// tabs and newlines).
pub open spec fn listing_of(output: Seq<char>) -> Seq<Seq<char>> {
    fields(without_char(output, '"'))
}

/// The identity named by `find-identity` output: on its first line, the text
/// after the first `"` up to the next `"` (or the end of the line); empty
/// where the output is empty or its first line holds no `"`.
pub open spec fn identity_of(output: Seq<char>) -> Seq<char> {
    match first_line(output) {
        Some(line) => {
            let q = position(line, '"', 0);
            if q < line.len() {
                line.subrange(q + 1, position(line, '"', q + 1))
            } else {
                Seq::empty()
            }
        },
        None => Seq::empty(),
    }
}

/// The identity named by `find-identity` output depends on its first line
/// alone: whatever follows the first newline changes nothing.
pub proof fn lemma_identity_from_first_line_only(line: Seq<char>, rest: Seq<char>)
    requires
        forall|k: int| 0 <= k < line.len() ==> line[k] != '\n',
        line.len() == 0 || line.last() != '\r',
    ensures
        identity_of(line + seq!['\n'] + rest) == identity_of(line),
{
    let s = line + seq!['\n'] + rest;
    assert(s[line.len() as int] == '\n');
    assert forall|k: int| 0 <= k < line.len() implies s[k] != '\n' by {
        assert(s[k] == line[k]);
    }
    lemma_position_found(s, '\n', 0, line.len() as int);
    lemma_position_found(line, '\n', 0, line.len() as int);
    if line.len() > 0 {
        assert(s[line.len() - 1] == line.last());
        assert(s.take(line.len() as int) =~= line);
        assert(line.take(line.len() as int) =~= line);
    } else {
        assert(s.take(0) =~= line);
    }
}

/// On a line of `find-identity` output, the identity is the text between
/// the first two quotes, whatever stands before and after them.
pub proof fn lemma_identity_between_quotes(before: Seq<char>, name: Seq<char>, after: Seq<char>)
    requires
        forall|k: int| 0 <= k < before.len() ==> before[k] != '"' && before[k] != '\n',
        forall|k: int| 0 <= k < name.len() ==> name[k] != '"' && name[k] != '\n',
        forall|k: int| 0 <= k < after.len() ==> after[k] != '\n',
    ensures
        identity_of(before + seq!['"'] + name + seq!['"'] + after) == name,
{
    let line = before + seq!['"'] + name + seq!['"'] + after;
    let q = before.len() as int;
    let e = q + 1 + name.len();
    assert forall|k: int| 0 <= k < line.len() implies line[k] != '\n' by {
        if k < q {
            assert(line[k] == before[k]);
        } else if k == q {
        } else if k < e {
            assert(line[k] == name[k - q - 1]);
        } else if k == e {
        } else {
            assert(line[k] == after[k - e - 1]);
        }
    }
    lemma_position_found(line, '\n', 0, line.len() as int);
    assert(line.take(line.len() as int) =~= line);
    assert forall|k: int| 0 <= k < q implies line[k] != '"' by {
        assert(line[k] == before[k]);
    }
    assert(line[q] == '"');
    lemma_position_found(line, '"', 0, q);
    assert forall|k: int| q + 1 <= k < e implies line[k] != '"' by {
        assert(line[k] == name[k - q - 1]);
    }
    assert(line[e] == '"');
    lemma_position_found(line, '"', q + 1, e);
    assert(line.subrange(q + 1, e) =~= name);
}

/// A first line without a quote names no identity.
pub proof fn lemma_identity_needs_quote(line: Seq<char>)
    requires
        forall|k: int| 0 <= k < line.len() ==> line[k] != '"' && line[k] != '\n',
    ensures
        identity_of(line) == Seq::<char>::empty(),
{
    lemma_position_found(line, '\n', 0, line.len() as int);
    assert(line.take(line.len() as int) =~= line);
    lemma_position_found(line, '"', 0, line.len() as int);
}

/// `s` with the keychain recorded as present at its file.
pub open spec fn with_keychain(s: SecurityView) -> SecurityView {
    SecurityView { keychain: Some(s.keychain_file), ..s }
}

/// `s` with no keychain recorded.
pub open spec fn without_keychain(s: SecurityView) -> SecurityView {
    SecurityView { keychain: None, ..s }
}

fn security_invocation(args: Vec<String>) -> (r: Invocation)
    ensures
        r@ == security_line(args.deep_view()),
{
    Invocation { program: String::from_str("security"), args }
}

impl Security {
    /// Sets up signing with `certificate`; the temporary keychain lives in
    /// `current_dir` and is recorded as present when its file exists there.
    pub fn new(
        certificate: String,
        certificate_password: Option<String>,
        current_dir: &str,
        keychain_file_exists: bool,
    ) -> (s: Security)
        ensures
            s@ == initial_security(
                certificate@,
                opt_view(certificate_password),
                current_dir@,
                keychain_file_exists,
            ),
    {
        let keychain_file = Self::keychain_file_path(current_dir);
        let keychain = if keychain_file_exists {
            Some(keychain_file.clone())
        } else {
            None
        };
        Security { certificate, certificate_password, keychain, keychain_file }
    }

    /// The path of the temporary keychain file for the working directory
    /// `current_dir`.
    pub fn keychain_file_path(current_dir: &str) -> (p: String)
        ensures
            p@ == join_path(current_dir@, KEYCHAIN_NAME@),
    {
        join(current_dir, KEYCHAIN_NAME)
    }

    /// The password of the temporary keychain.
    pub fn keychain_password() -> (p: &'static str)
        ensures
            p@ == KEYCHAIN_PASSWORD@,
    {
        KEYCHAIN_PASSWORD
    }

    /// Records the temporary keychain as present: what follows a successful
    /// creation, addition to the user domain, setting, unlocking or import.
    pub fn record_keychain(&mut self)
        ensures
            final(self)@ == with_keychain(old(self)@),
    {
        self.keychain = Some(self.keychain_file.clone());
    }

    /// Records no keychain: what follows a successful deletion.
    pub fn forget_keychain(&mut self)
        ensures
            final(self)@ == without_keychain(old(self)@),
    {
        self.keychain = None;
    }

    /// The command that deletes the recorded keychain, if one is recorded.
    /// Where it succeeds, the keychain is no longer recorded
    /// (`forget_keychain`); where it fails, the signing fails.
    pub fn delete_keychain(&self) -> (r: Option<Invocation>)
        ensures
            match self@.keychain {
                Some(k) => r is Some && r->0@ == delete_line(k),
                None => r is None,
            },
    {
        match &self.keychain {
            Some(keychain) => {
                let mut args: Vec<String> = Vec::new();
                assert(args.deep_view() =~= Seq::<Seq<char>>::empty());
                push_arg(&mut args, "delete-keychain");
                push_arg(&mut args, keychain.as_str());
                assert(args.deep_view() =~= seq!["delete-keychain"@, keychain@]);
                Some(security_invocation(args))
            },
            None => None,
        }
    }

    /// The command that creates the temporary keychain.
    pub fn create_keychain(&self) -> (r: Invocation)
        ensures
            r@ == create_line(self@.keychain_file),
    {
        let mut args: Vec<String> = Vec::new();
        assert(args.deep_view() =~= Seq::<Seq<char>>::empty());
        push_arg(&mut args, "create-keychain");
        push_arg(&mut args, "-p");
        push_arg(&mut args, Self::keychain_password());
        push_arg(&mut args, self.keychain_file.as_str());
        assert(args.deep_view() =~= seq![
            "create-keychain"@,
            "-p"@,
            KEYCHAIN_PASSWORD@,
            self.keychain_file@,
        ]);
        security_invocation(args)
    }

    /// The command whose output lists the user domain's keychains.
    pub fn list_keychains(&self) -> (r: Invocation)
        ensures
            r@ == list_line(),
    {
        let mut args: Vec<String> = Vec::new();
        assert(args.deep_view() =~= Seq::<Seq<char>>::empty());
        push_arg(&mut args, "list-keychains");
        push_arg(&mut args, "-d");
        push_arg(&mut args, "user");
        assert(args.deep_view() =~= seq!["list-keychains"@, "-d"@, "user"@]);
        security_invocation(args)
    }

    /// The listing that `list-keychains` output gives: the output with every
    /// `"` removed.
    pub fn keychain_list_text(output: &str) -> (t: String)
        ensures
            t@ == without_char(output@, '"'),
    {
        remove_char(output, '"')
    }

    /// The keychains that `list-keychains` output names: its listing text,
    /// split at spaces, tabs and newlines as the shell splits it.
    pub fn keychain_listing(output: &str) -> (l: Vec<String>)
        ensures
            l.deep_view() == listing_of(output@),
    {
        let text = Self::keychain_list_text(output);
        split_words(text.as_str(), true)
    }

    /// The command that puts the temporary keychain in front of `keychains`
    /// in the user domain.
    pub fn add_keychain_to_user_domain(&self, keychains: &Vec<String>) -> (r: Invocation)
        ensures
            r@ == add_line(self@.keychain_file, keychains.deep_view()),
    {
        let mut args: Vec<String> = Vec::new();
        assert(args.deep_view() =~= Seq::<Seq<char>>::empty());
        push_arg(&mut args, "list-keychains");
        push_arg(&mut args, "-d");
        push_arg(&mut args, "user");
        push_arg(&mut args, "-s");
        push_arg(&mut args, self.keychain_file.as_str());
        let ghost head = args.deep_view();
        assert(head =~= seq!["list-keychains"@, "-d"@, "user"@, "-s"@, self.keychain_file@]);
        let mut i: usize = 0;
        while i < keychains.len()
            invariant
                i <= keychains@.len(),
                args.deep_view() == head + keychains.deep_view().take(i as int),
            decreases keychains@.len() - i,
        {
            push_arg(&mut args, keychains[i].as_str());
            assert(keychains.deep_view().take(i + 1) =~= keychains.deep_view().take(
                i as int,
            ).push(keychains@[i as int]@));
            i = i + 1;
        }
        assert(keychains.deep_view().take(keychains@.len() as int) =~= keychains.deep_view());
        security_invocation(args)
    }

    /// The command that removes the relock timeout of the temporary keychain.
    pub fn set_keychain_settings(&self) -> (r: Invocation)
        ensures
            r@ == settings_line(self@.keychain_file),
    {
        let mut args: Vec<String> = Vec::new();
        assert(args.deep_view() =~= Seq::<Seq<char>>::empty());
        push_arg(&mut args, "set-keychain-settings");
        push_arg(&mut args, self.keychain_file.as_str());
        assert(args.deep_view() =~= seq!["set-keychain-settings"@, self.keychain_file@]);
        security_invocation(args)
    }

    /// The command that unlocks the temporary keychain.
    pub fn unlock_keychain(&self) -> (r: Invocation)
        ensures
            r@ == unlock_line(self@.keychain_file),
    {
        let mut args: Vec<String> = Vec::new();
        assert(args.deep_view() =~= Seq::<Seq<char>>::empty());
        push_arg(&mut args, "unlock-keychain");
        push_arg(&mut args, "-p");
        push_arg(&mut args, Self::keychain_password());
        push_arg(&mut args, self.keychain_file.as_str());
        assert(args.deep_view() =~= seq![
            "unlock-keychain"@,
            "-p"@,
            KEYCHAIN_PASSWORD@,
            self.keychain_file@,
        ]);
        security_invocation(args)
    }

    /// The command that imports the certificate, with its password (or the
    /// empty string), into the temporary keychain.
    pub fn import_keychain(&self) -> (r: Invocation)
        ensures
            r@ == import_line(
                self@.certificate,
                password_or_empty(self@.certificate_password),
                self@.keychain_file,
            ),
    {
        let mut args: Vec<String> = Vec::new();
        assert(args.deep_view() =~= Seq::<Seq<char>>::empty());
        push_arg(&mut args, "import");
        push_arg(&mut args, self.certificate.as_str());
        push_arg(&mut args, "-k");
        push_arg(&mut args, self.keychain_file.as_str());
        push_arg(&mut args, "-P");
        match &self.certificate_password {
            Some(p) => push_arg(&mut args, p.as_str()),
            None => push_arg(&mut args, ""),
        }
        push_arg(&mut args, "-T");
        push_arg(&mut args, "/usr/bin/codesign");
        assert(args.deep_view() =~= seq![
            "import"@,
            self.certificate@,
            "-k"@,
            self.keychain_file@,
            "-P"@,
            password_or_empty(opt_view(self.certificate_password)),
            "-T"@,
            "/usr/bin/codesign"@,
        ]);
        security_invocation(args)
    }

    /// The command whose output lists the codesigning identities of the
    /// temporary keychain.
    pub fn find_identity(&self) -> (r: Invocation)
        ensures
            r@ == find_line(self@.keychain_file),
    {
        let mut args: Vec<String> = Vec::new();
        assert(args.deep_view() =~= Seq::<Seq<char>>::empty());
        push_arg(&mut args, "find-identity");
        push_arg(&mut args, "-v");
        push_arg(&mut args, "-p");
        push_arg(&mut args, "codesigning");
        push_arg(&mut args, self.keychain_file.as_str());
        assert(args.deep_view() =~= seq![
            "find-identity"@,
            "-v"@,
            "-p"@,
            "codesigning"@,
            self.keychain_file@,
        ]);
        security_invocation(args)
    }

    /// The identity that `find-identity` output names: on its first line,
    /// the text between the first `"` and the next one.
    pub fn identity_in(output: &str) -> (id: String)
        ensures
            id@ == identity_of(output@),
    {
        match line_one(output) {
            Some(line) => {
                let v = chars_of(line.as_str());
                let q = find(&v, '"', 0);
                if q < v.len() {
                    let e = find(&v, '"', q + 1);
                    string_of(&v, q + 1, e)
                } else {
                    String::new()
                }
            },
            None => String::new(),
        }
    }

    /// The command that lets codesign use the key of `identity` without a
    /// prompt.
    pub fn set_key_partition_list(&self, identity: &str) -> (r: Invocation)
        ensures
            r@ == partition_line(identity@, self@.keychain_file),
    {
        let mut args: Vec<String> = Vec::new();
        assert(args.deep_view() =~= Seq::<Seq<char>>::empty());
        push_arg(&mut args, "set-key-partition-list");
        push_arg(&mut args, "-S");
        push_arg(&mut args, "apple-tool:,apple:");
        push_arg(&mut args, "-s");
        push_arg(&mut args, "-k");
        push_arg(&mut args, Self::keychain_password());
        push_arg(&mut args, "-D");
        push_arg(&mut args, identity);
        push_arg(&mut args, "-t");
        push_arg(&mut args, "private");
        push_arg(&mut args, self.keychain_file.as_str());
        assert(args.deep_view() =~= seq![
            "set-key-partition-list"@,
            "-S"@,
            "apple-tool:,apple:"@,
            "-s"@,
            "-k"@,
            KEYCHAIN_PASSWORD@,
            "-D"@,
            identity@,
            "-t"@,
            "private"@,
            self.keychain_file@,
        ]);
        security_invocation(args)
    }
}

} // verus!
