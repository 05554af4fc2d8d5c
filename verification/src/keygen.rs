//! The key generator as a conversation: what to ask the user next, and
//! what to show once everything is known. Asking and showing are left to
//! the program around this library.

use vstd::prelude::*;
use vstd::string::{StringExecFns, StringSliceAdditionalSpecFns};
use crate::backend::ed25519_public;
use crate::error::{KeyError, RecoveryError};
use crate::key::{generated_secret, passphrase_fits, recovered_secret, SecretKey};
use crate::mnemonic::{phrase_entropy, phrase_text, ENTROPY_LEN};
use crate::text::{ascii_chars, hex_text};

verus! {

/// What the generator is run for.
#[derive(Clone, Copy, Debug, PartialEq, Eq, Structural)]
pub enum Command {
    /// Make a new key and its recovery phrase.
    Generate,
    /// Make a key again from its recovery phrase.
    Recover,
}

/// A question to the user.
#[derive(Clone, Copy, Debug, PartialEq, Eq, Structural)]
pub enum Ask {
    RecoveryPhrase,
    OutFile,
    Passphrase,
    Confirmation,
    /// The confirmation once more, because the last one did not match.
    ConfirmationAgain,
}

/// What comes next in the conversation.
#[derive(Clone, Copy, Debug, PartialEq, Eq, Structural)]
pub enum Step {
    Ask(Ask),
    /// Nothing is left to ask.
    Ready,
}

/// Why a run gave no key.
#[derive(Clone, Copy, Debug, PartialEq, Eq, Structural)]
pub enum KeygenError {
    /// Something is still to be asked.
    Incomplete,
    /// The recovery phrase is no phrase.
    InvalidPhrase,
    /// The passphrase is longer than the cryptographic backend takes.
    TooLong,
    /// The entropy source or the cryptographic backend failed.
    Backend,
}

/// One line of what is shown at the end.
#[derive(Debug, PartialEq, Eq)]
pub enum Line {
    SecretKey(String),
    PublicKey(String),
    Mnemonic(String),
    /// The name of the file that holds the public key.
    PublicFile(String),
    /// The name of the file that holds the private key.
    PrivateFile(String),
    /// The sentence that introduces the recovery phrase.
    RecoveryHint,
}

/// A line as plain values.
pub enum LineView {
    SecretKey(Seq<char>),
    PublicKey(Seq<char>),
    Mnemonic(Seq<char>),
    PublicFile(Seq<char>),
    PrivateFile(Seq<char>),
    RecoveryHint,
}

impl View for Line {
    type V = LineView;

    open spec fn view(&self) -> LineView {
        match *self {
            Line::SecretKey(s) => LineView::SecretKey(s@),
            Line::PublicKey(s) => LineView::PublicKey(s@),
            Line::Mnemonic(s) => LineView::Mnemonic(s@),
            Line::PublicFile(s) => LineView::PublicFile(s@),
            Line::PrivateFile(s) => LineView::PrivateFile(s@),
            Line::RecoveryHint => LineView::RecoveryHint,
        }
    }
}

/// The lines of a vector as plain values.
pub open spec fn line_views(lines: Seq<Line>) -> Seq<LineView> {
    Seq::new(lines.len(), |i: int| lines[i]@)
}

/// What is shown for a key with secret bytes `secret`. With `unencrypted`
/// the keys themselves are shown, and the phrase after a generation;
/// without it only the names of the files that hold the keys, and after a
/// generation the phrase behind its hint.
pub open spec fn report(
    command: Command,
    unencrypted: bool,
    secret: Seq<u8>,
    mnemonic: Seq<char>,
    out_file: Seq<char>,
) -> Seq<LineView> {
    let keys = seq![
        LineView::SecretKey(ascii_chars(hex_text(secret))),
        LineView::PublicKey(ascii_chars(hex_text(ed25519_public(secret)))),
    ];
    let files = seq![LineView::PublicFile(out_file + ".pub"@), LineView::PrivateFile(out_file)];
    match command {
        Command::Generate => if unencrypted {
            keys.push(LineView::Mnemonic(mnemonic))
        } else {
            files.push(LineView::RecoveryHint).push(LineView::Mnemonic(mnemonic))
        },
        Command::Recover => if unencrypted {
            keys
        } else {
            files
        },
    }
}

/// The lines to show for `key`.
pub fn report_lines(
    command: Command,
    unencrypted: bool,
    key: &SecretKey,
    mnemonic: &str,
    out_file: &str,
) -> (lines: Vec<Line>)
    ensures
        line_views(lines@) == report(command, unencrypted, key@, mnemonic@, out_file@),
{
    let mut lines: Vec<Line> = Vec::new();
    if unencrypted {
        lines.push(Line::SecretKey(key.to_string()));
        lines.push(Line::PublicKey(key.public().to_string()));
    } else {
        let mut public_file = out_file.to_owned();
        public_file.append(".pub");
        lines.push(Line::PublicFile(public_file));
        lines.push(Line::PrivateFile(out_file.to_owned()));
    }
    match command {
        Command::Generate => {
            if !unencrypted {
                lines.push(Line::RecoveryHint);
            }
            lines.push(Line::Mnemonic(mnemonic.to_owned()));
        },
        Command::Recover => {},
    }
    assert(line_views(lines@) =~= report(command, unencrypted, key@, mnemonic@, out_file@));
    lines
}

/// What is known so far in a conversation.
pub struct Dialogue {
    command: Command,
    unencrypted: bool,
    phrase: Option<String>,
    out_file: Option<String>,
    passphrase: Option<String>,
    confirmation: Option<String>,
}

/// A conversation as plain values.
pub struct DialogueView {
    pub command: Command,
    pub unencrypted: bool,
    pub phrase: Option<Seq<char>>,
    pub out_file: Option<Seq<char>>,
    pub passphrase: Option<Seq<char>>,
    pub confirmation: Option<Seq<char>>,
}

/// The characters of a text that may be unknown yet.
pub open spec fn text_view(text: Option<String>) -> Option<Seq<char>> {
    match text {
        Some(t) => Some(t@),
        None => None,
    }
}

impl DialogueView {
    /// What comes next. A recovery asks for the phrase first. The file
    /// name is asked for unless a generation shows the keys unencrypted.
    /// Then the passphrase, and for a passphrase that is not empty its
    /// confirmation, again and again until the two match.
    pub open spec fn step(self) -> Step {
        if self.command == Command::Recover && self.phrase is None {
            Step::Ask(Ask::RecoveryPhrase)
        } else if self.out_file is None && (self.command == Command::Recover
            || !self.unencrypted) {
            Step::Ask(Ask::OutFile)
        } else if self.passphrase is None {
            Step::Ask(Ask::Passphrase)
        } else if self.passphrase.unwrap().len() == 0 {
            Step::Ready
        } else {
            match self.confirmation {
                None => Step::Ask(Ask::Confirmation),
                Some(c) => if c == self.passphrase.unwrap() {
                    Step::Ready
                } else {
                    Step::Ask(Ask::ConfirmationAgain)
                },
            }
        }
    }

    /// The conversation after the user answered `ask` with `text`.
    pub open spec fn supply(self, ask: Ask, text: Seq<char>) -> DialogueView {
        match ask {
            Ask::RecoveryPhrase => DialogueView { phrase: Some(text), ..self },
            Ask::OutFile => DialogueView { out_file: Some(text), ..self },
            Ask::Passphrase => DialogueView { passphrase: Some(text), ..self },
            Ask::Confirmation => DialogueView { confirmation: Some(text), ..self },
            Ask::ConfirmationAgain => DialogueView { confirmation: Some(text), ..self },
        }
    }

    /// The bytes of the passphrase.
    pub open spec fn passphrase_bytes(self) -> Seq<u8> {
        vstd::utf8::encode_utf8(self.passphrase.unwrap())
    }

    /// The bytes of the recovery phrase.
    pub open spec fn phrase_bytes(self) -> Seq<u8> {
        vstd::utf8::encode_utf8(self.phrase.unwrap())
    }

    /// What stands in the way of a run whatever the backend does, if
    /// anything: something still to be asked; a recovery text that is no
    /// phrase; a passphrase longer than the backend takes.
    pub open spec fn refusal(self) -> Option<KeygenError> {
        if self.step() != Step::Ready {
            Some(KeygenError::Incomplete)
        } else if self.command == Command::Recover && phrase_entropy(self.phrase_bytes())
            is None {
            Some(KeygenError::InvalidPhrase)
        } else if !passphrase_fits(self.passphrase_bytes()) {
            Some(KeygenError::TooLong)
        } else {
            None
        }
    }

    /// The file name to show: the one given, or none at all.
    pub open spec fn file_name(self) -> Seq<char> {
        match self.out_file {
            Some(f) => f,
            None => Seq::empty(),
        }
    }
}

impl View for Dialogue {
    type V = DialogueView;

    closed spec fn view(&self) -> DialogueView {
        DialogueView {
            command: self.command,
            unencrypted: self.unencrypted,
            phrase: text_view(self.phrase),
            out_file: text_view(self.out_file),
            passphrase: text_view(self.passphrase),
            confirmation: text_view(self.confirmation),
        }
    }
}

impl Dialogue {
    /// The conversation of a generation; the passphrase may be known from
    /// the start.
    pub fn generate(unencrypted: bool, passphrase: Option<String>) -> (dialogue: Dialogue)
        ensures
            dialogue@ == (DialogueView {
                command: Command::Generate,
                unencrypted,
                phrase: None,
                out_file: None,
                passphrase: text_view(passphrase),
                confirmation: None,
            }),
    {
        Dialogue {
            command: Command::Generate,
            unencrypted,
            phrase: None,
            out_file: None,
            passphrase,
            confirmation: None,
        }
    }

    /// The conversation of a recovery.
    pub fn recover(unencrypted: bool) -> (dialogue: Dialogue)
        ensures
            dialogue@ == (DialogueView {
                command: Command::Recover,
                unencrypted,
                phrase: None,
                out_file: None,
                passphrase: None,
                confirmation: None,
            }),
    {
        Dialogue {
            command: Command::Recover,
            unencrypted,
            phrase: None,
            out_file: None,
            passphrase: None,
            confirmation: None,
        }
    }

    /// What comes next.
    pub fn step(&self) -> (step: Step)
        ensures
            step == self@.step(),
    {
        let recovering = match self.command {
            Command::Recover => true,
            Command::Generate => false,
        };
        if recovering && self.phrase.is_none() {
            return Step::Ask(Ask::RecoveryPhrase);
        }
        if self.out_file.is_none() && (recovering || !self.unencrypted) {
            return Step::Ask(Ask::OutFile);
        }
        match &self.passphrase {
            None => Step::Ask(Ask::Passphrase),
            Some(passphrase) => {
                if passphrase.as_str().is_empty() {
                    Step::Ready
                } else {
                    match &self.confirmation {
                        None => Step::Ask(Ask::Confirmation),
                        Some(confirmation) => {
                            if *confirmation == *passphrase {
                                Step::Ready
                            } else {
                                Step::Ask(Ask::ConfirmationAgain)
                            }
                        },
                    }
                }
            },
        }
    }

    /// Takes the user's answer to `ask`.
    pub fn supply(&mut self, ask: Ask, text: String)
        ensures
            final(self)@ == old(self)@.supply(ask, text@),
    {
        match ask {
            Ask::RecoveryPhrase => {
                self.phrase = Some(text);
            },
            Ask::OutFile => {
                self.out_file = Some(text);
            },
            Ask::Passphrase => {
                self.passphrase = Some(text);
            },
            Ask::Confirmation => {
                self.confirmation = Some(text);
            },
            Ask::ConfirmationAgain => {
                self.confirmation = Some(text);
            },
        }
    }

    /// Makes or recovers the key and says what to show. What stands in
    /// the way is reported first and exactly: something still to be asked,
    /// then a recovery text that is no phrase, then a passphrase longer
    /// than the backend takes. Otherwise the lines are the report for the
    /// key made, unless the entropy source or the backend fails: after a
    /// generation, the key that fresh entropy and the passphrase derive,
    /// with the phrase of that entropy; after a recovery, the key that
    /// the phrase and the passphrase derive.
    pub fn run(&self) -> (shown: Result<Vec<Line>, KeygenError>)
        ensures
            self@.refusal() matches Some(e) ==> shown == Err::<Vec<Line>, KeygenError>(e),
            self@.refusal() is None && shown is Err ==> shown == Err::<Vec<Line>, KeygenError>(
                KeygenError::Backend,
            ),
            self@.command == Command::Recover ==> (shown matches Ok(lines) ==> recovered_secret(
                self@.phrase_bytes(),
                self@.passphrase_bytes(),
            ) matches Ok(secret) && line_views(lines@) == report(
                Command::Recover,
                self@.unencrypted,
                secret,
                Seq::empty(),
                self@.file_name(),
            )),
            self@.command == Command::Generate ==> (shown matches Ok(lines) ==> exists|
                entropy: Seq<u8>,
            |
                entropy.len() == ENTROPY_LEN && #[trigger] report(
                    Command::Generate,
                    self@.unencrypted,
                    generated_secret(entropy, self@.passphrase_bytes()),
                    ascii_chars(phrase_text(entropy)),
                    self@.file_name(),
                ) == line_views(lines@)),
    {
        match self.step() {
            Step::Ready => {},
            Step::Ask(_) => {
                return Err(KeygenError::Incomplete);
            },
        }
        let passphrase = match &self.passphrase {
            Some(p) => p.as_str(),
            None => "",
        };
        let out_file = match &self.out_file {
            Some(f) => f.as_str(),
            None => "",
        };
        proof {
            if self.out_file is None {
                reveal_strlit("");
                assert(out_file@ =~= Seq::<char>::empty());
            }
        }
        match self.command {
            Command::Generate => match SecretKey::generate(passphrase) {
                Ok((key, mnemonic)) => {
                    let lines = report_lines(
                        Command::Generate,
                        self.unencrypted,
                        &key,
                        mnemonic.as_str(),
                        out_file,
                    );
                    proof {
                        let entropy = choose|entropy: Seq<u8>|
                            {
                                &&& entropy.len() == ENTROPY_LEN
                                &&& #[trigger] generated_secret(entropy, passphrase.spec_bytes())
                                    == key@
                                &&& mnemonic@ == ascii_chars(phrase_text(entropy))
                            };
                        assert(report(
                            Command::Generate,
                            self@.unencrypted,
                            generated_secret(entropy, self@.passphrase_bytes()),
                            ascii_chars(phrase_text(entropy)),
                            self@.file_name(),
                        ) == line_views(lines@));
                    }
                    Ok(lines)
                },
                Err(KeyError::TooLong) => Err(KeygenError::TooLong),
                Err(_) => Err(KeygenError::Backend),
            },
            Command::Recover => {
                let phrase = match &self.phrase {
                    Some(p) => p.as_str(),
                    None => "",
                };
                match SecretKey::from_mnemonic(phrase, passphrase) {
                    Ok(key) => {
                        let lines = report_lines(
                            Command::Recover,
                            self.unencrypted,
                            &key,
                            "",
                            out_file,
                        );
                        Ok(lines)
                    },
                    Err(RecoveryError::InvalidPhrase) => Err(KeygenError::InvalidPhrase),
                    Err(RecoveryError::TooLong) => Err(KeygenError::TooLong),
                    Err(RecoveryError::Backend) => Err(KeygenError::Backend),
                }
            },
        }
    }
}

/// The conversation comes to an end: answering what is asked leads to the
/// next question and never back, and a confirmation that matches ends it.
pub proof fn lemma_dialogue_advances(d: DialogueView, text: Seq<char>)
    ensures
        d.step() == Step::Ask(Ask::RecoveryPhrase) ==> d.supply(Ask::RecoveryPhrase, text).step()
            != Step::Ask(Ask::RecoveryPhrase),
        d.step() == Step::Ask(Ask::OutFile) ==> d.supply(Ask::OutFile, text).step() != Step::Ask(
            Ask::OutFile,
        ) && d.supply(Ask::OutFile, text).step() != Step::Ask(Ask::RecoveryPhrase),
        d.step() == Step::Ask(Ask::Passphrase) ==> (d.supply(Ask::Passphrase, text).step()
            == Step::Ready <==> text.len() == 0 || d.confirmation == Some(text)),
        d.step() == Step::Ask(Ask::Confirmation) || d.step() == Step::Ask(Ask::ConfirmationAgain)
            ==> (d.supply(Ask::Confirmation, text).step() == Step::Ready <==> Some(text)
            == d.passphrase),
        d.step() == Step::Ask(Ask::Confirmation) || d.step() == Step::Ask(Ask::ConfirmationAgain)
            ==> (d.supply(Ask::Confirmation, text).step() == Step::Ask(Ask::ConfirmationAgain)
            <==> Some(text) != d.passphrase),
{
}

/// What kind of key a file holds, going by its name.
#[derive(Clone, Copy, Debug, PartialEq, Eq, Structural)]
pub enum KeyFileKind {
    /// The name ends in `.pub`.
    Public,
    /// The name ends in `.pem`.
    Private,
    /// Any other name.
    Other,
}

/// Whether `name` ends with the four bytes `a`, `b`, `c`, `d`.
pub open spec fn ends_with(name: Seq<u8>, a: u8, b: u8, c: u8, d: u8) -> bool {
    name.len() >= 4 && name[name.len() - 4] == a && name[name.len() - 3] == b && name[name.len()
        - 2] == c && name[name.len() - 1] == d
}

/// The kind of key file that a name stands for.
pub open spec fn file_kind(name: Seq<u8>) -> KeyFileKind {
    if ends_with(name, 46, 112, 117, 98) {
        KeyFileKind::Public
    } else if ends_with(name, 46, 112, 101, 109) {
        KeyFileKind::Private
    } else {
        KeyFileKind::Other
    }
}

/// Tells the kind of a key file from its name.
pub fn key_file_kind(file: &str) -> (kind: KeyFileKind)
    ensures
        kind == file_kind(file.spec_bytes()),
{
    let name = file.as_bytes();
    let n = name.len();
    if n < 4 || name[n - 4] != 46 || name[n - 3] != 112 {
        return KeyFileKind::Other;
    }
    if name[n - 2] == 117 && name[n - 1] == 98 {
        KeyFileKind::Public
    } else if name[n - 2] == 101 && name[n - 1] == 109 {
        KeyFileKind::Private
    } else {
        KeyFileKind::Other
    }
}

} // verus!
