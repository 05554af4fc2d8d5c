use hedera::key::SecretKey;
use hedera::keygen::{
    key_file_kind, report_lines, Ask, Command, Dialogue, KeyFileKind, KeygenError, Line, Step,
};

const RFC_SECRET: &str = "9d61b19deffd5a60ba844af492ec2cc44449c5697b326919703bac031cae7f60";
const RFC_PUBLIC: &str = "d75a980182b10ab7d54bfed3c964073a0ee172f3daa62325af021a68f707511a";

fn answer(dialogue: &mut Dialogue, ask: Ask, text: &str) {
    assert_eq!(dialogue.step(), Step::Ask(ask));
    dialogue.supply(ask, text.to_string());
}

#[test]
fn generation_asks_for_file_passphrase_and_confirmation() {
    let mut dialogue = Dialogue::generate(false, None);
    assert_eq!(dialogue.run(), Err(KeygenError::Incomplete));
    answer(&mut dialogue, Ask::OutFile, "id_hedera");
    answer(&mut dialogue, Ask::Passphrase, "hunter2");
    answer(&mut dialogue, Ask::Confirmation, "hunter3");
    assert_eq!(dialogue.run(), Err(KeygenError::Incomplete));
    answer(&mut dialogue, Ask::ConfirmationAgain, "hunter");
    answer(&mut dialogue, Ask::ConfirmationAgain, "hunter2");
    assert_eq!(dialogue.step(), Step::Ready);
    let lines = dialogue.run().unwrap();
    assert_eq!(lines.len(), 4);
    assert_eq!(lines[0], Line::PublicFile("id_hedera.pub".to_string()));
    assert_eq!(lines[1], Line::PrivateFile("id_hedera".to_string()));
    assert_eq!(lines[2], Line::RecoveryHint);
    match &lines[3] {
        Line::Mnemonic(phrase) => assert!(SecretKey::from_mnemonic(phrase, "hunter2").is_ok()),
        other => panic!("{:?}", other),
    }
}

#[test]
fn unencrypted_generation_skips_the_file_and_shows_the_keys() {
    let mut dialogue = Dialogue::generate(true, None);
    answer(&mut dialogue, Ask::Passphrase, "");
    assert_eq!(dialogue.step(), Step::Ready);
    let lines = dialogue.run().unwrap();
    assert_eq!(lines.len(), 3);
    let (secret, public, phrase) = match (&lines[0], &lines[1], &lines[2]) {
        (Line::SecretKey(s), Line::PublicKey(p), Line::Mnemonic(m)) => (s, p, m),
        other => panic!("{:?}", other),
    };
    let key = SecretKey::from_str(secret).unwrap();
    assert_eq!(&key.public().to_string(), public);
    assert!(SecretKey::from_mnemonic(phrase, "") == Ok(key));
}

#[test]
fn a_passphrase_from_the_command_line_is_still_confirmed() {
    let mut dialogue = Dialogue::generate(true, Some("hunter2".to_string()));
    answer(&mut dialogue, Ask::Confirmation, "hunter2");
    assert_eq!(dialogue.step(), Step::Ready);
    let dialogue = Dialogue::generate(true, Some(String::new()));
    assert_eq!(dialogue.step(), Step::Ready);
    let dialogue = Dialogue::generate(false, Some(String::new()));
    assert_eq!(dialogue.step(), Step::Ask(Ask::OutFile));
}

#[test]
fn recovery_asks_for_the_phrase_first() {
    let (key, phrase) = SecretKey::from_entropy(&[3u8; 32], "hunter2").unwrap();
    let mut dialogue = Dialogue::recover(false);
    answer(&mut dialogue, Ask::RecoveryPhrase, &phrase);
    answer(&mut dialogue, Ask::OutFile, "id_hedera");
    answer(&mut dialogue, Ask::Passphrase, "hunter2");
    answer(&mut dialogue, Ask::Confirmation, "hunter2");
    assert_eq!(dialogue.step(), Step::Ready);
    assert_eq!(
        dialogue.run(),
        Ok(vec![
            Line::PublicFile("id_hedera.pub".to_string()),
            Line::PrivateFile("id_hedera".to_string()),
        ])
    );

    let mut dialogue = Dialogue::recover(true);
    answer(&mut dialogue, Ask::RecoveryPhrase, &phrase);
    answer(&mut dialogue, Ask::OutFile, "unused");
    answer(&mut dialogue, Ask::Passphrase, "hunter2");
    answer(&mut dialogue, Ask::Confirmation, "hunter2");
    assert_eq!(
        dialogue.run(),
        Ok(vec![Line::SecretKey(key.to_string()), Line::PublicKey(key.public().to_string())])
    );
}

#[test]
fn recovery_reports_a_bad_phrase_instead_of_aborting() {
    let mut dialogue = Dialogue::recover(true);
    answer(&mut dialogue, Ask::RecoveryPhrase, "not a real phrase");
    answer(&mut dialogue, Ask::OutFile, "id_hedera");
    assert_eq!(dialogue.run(), Err(KeygenError::Incomplete));
    answer(&mut dialogue, Ask::Passphrase, "");
    assert_eq!(dialogue.step(), Step::Ready);
    assert_eq!(dialogue.run(), Err(KeygenError::InvalidPhrase));
}

#[test]
fn the_report_depends_on_command_and_mode() {
    let key = SecretKey::from_str(RFC_SECRET).unwrap();
    assert_eq!(
        report_lines(Command::Generate, true, &key, "w1 w2", "f"),
        vec![
            Line::SecretKey(RFC_SECRET.to_string()),
            Line::PublicKey(RFC_PUBLIC.to_string()),
            Line::Mnemonic("w1 w2".to_string()),
        ]
    );
    assert_eq!(
        report_lines(Command::Generate, false, &key, "w1 w2", "f"),
        vec![
            Line::PublicFile("f.pub".to_string()),
            Line::PrivateFile("f".to_string()),
            Line::RecoveryHint,
            Line::Mnemonic("w1 w2".to_string()),
        ]
    );
    assert_eq!(
        report_lines(Command::Recover, true, &key, "", "f"),
        vec![Line::SecretKey(RFC_SECRET.to_string()), Line::PublicKey(RFC_PUBLIC.to_string())]
    );
    assert_eq!(
        report_lines(Command::Recover, false, &key, "", ""),
        vec![Line::PublicFile(".pub".to_string()), Line::PrivateFile(String::new())]
    );
}

#[test]
fn key_files_are_told_by_their_names() {
    assert_eq!(key_file_kind("id_hedera.pub"), KeyFileKind::Public);
    assert_eq!(key_file_kind(".pub"), KeyFileKind::Public);
    assert_eq!(key_file_kind("id_hedera.pem"), KeyFileKind::Private);
    assert_eq!(key_file_kind(".pem"), KeyFileKind::Private);
    for other in ["", "pub", "pem", "id_hedera", "id.pub.txt", "id.PUB", "id.pu", "id.pem ",
        "idxpub", "id.peb", "id.pum"]
    {
        assert_eq!(key_file_kind(other), KeyFileKind::Other, "{:?}", other);
    }
    assert_eq!(key_file_kind("cl\u{e9}.pub"), KeyFileKind::Public);
}
