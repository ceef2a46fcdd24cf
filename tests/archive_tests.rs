use archive_reader::{
    Archive, BlockReply, Decoder, EngineCall, Entry, Error, HeaderReply, IoErrorKind, Request,
    Status, Utf8Lossy, ARCHIVE_EOF, ARCHIVE_OK,
};

// A scripted engine: it plays the archives below the way a native engine
// reads them, forward only, one header or block per call.

const ARCHIVE_FAILED: i32 = -25;

const ZIP: &str = "test_resources/test.zip";
const SEVEN_Z: &str = "test_resources/test.7z";
const RAR: &str = "test_resources/test.rar";
const EMPTY_ZIP: &str = "test_resources/empty.zip";
const LARGE_ZIP: &str = "test_resources/large.zip";
const ENCRYPTED_ZIP: &str = "test_resources/encrypted.zip";
const ENCRYPTED_7Z: &str = "test_resources/encrypted.7z";

/// The largest block the scripted engine decompresses at once.
const ENGINE_CHUNK: usize = 65536;

struct Item {
    name: &'static str,
    content: Vec<u8>,
    passphrase: Option<&'static str>,
}

struct Fixture {
    items: Vec<Item>,
    header_encrypted: bool,
}

fn item(name: &'static str, content: &[u8]) -> Item {
    Item { name, content: content.to_vec(), passphrase: None }
}

fn large_text() -> Vec<u8> {
    let mut text = Vec::new();
    for i in 0..20000 {
        text.extend_from_slice(format!("line number {i} of the large file\n").as_bytes());
    }
    text
}

fn fixture(path: &str) -> Option<Fixture> {
    let items = match path {
        ZIP => vec![
            item("content/", b""),
            item("content/first", b"first\n"),
            item("content/third", b"third\n"),
            item("content/nested/", b""),
            item("content/nested/second", b"second\n"),
        ],
        SEVEN_Z => vec![
            item("content/", b""),
            item("content/nested/", b""),
            item("content/first", b"first\n"),
            item("content/nested/second", b"second\n"),
            item("content/third", b"third\n"),
        ],
        RAR => vec![
            item("content/first", b"first\n"),
            item("content/third", b"third\n"),
            item("content/nested/second", b"second\n"),
            item("content/nested", b""),
            item("content", b""),
        ],
        EMPTY_ZIP => vec![item("empty", b"")],
        LARGE_ZIP => vec![Item { name: "large.txt", content: large_text(), passphrase: None }],
        ENCRYPTED_ZIP => vec![Item {
            name: "encrypted",
            content: b"encrypted\n".to_vec(),
            passphrase: Some("password"),
        }],
        ENCRYPTED_7Z => vec![Item {
            name: "encrypted",
            content: b"encrypted\n".to_vec(),
            passphrase: Some("password"),
        }],
        _ => return None,
    };
    Some(Fixture { items, header_encrypted: path == ENCRYPTED_7Z })
}

struct Engine {
    fixture: Fixture,
    passwords: Vec<String>,
    block_size: usize,
    next_item: usize,
    current: Option<(usize, usize)>,
}

fn failed(message: &str) -> Status {
    Status::failed(ARCHIVE_FAILED, message.to_string())
}

impl Engine {
    fn open<D: Decoder + Copy>(archive: &Archive<D>) -> Result<Engine, Error> {
        let found = fixture(archive.path());
        let calls = archive.open_calls(found.is_some())?;
        let mut passwords = Vec::new();
        let mut block_size = 0;
        let mut opened = false;
        for call in calls {
            match call {
                EngineCall::AddPassphrase(p) => {
                    assert!(!opened, "passphrases come before the file is opened");
                    passwords.push(p)
                }
                EngineCall::OpenFilename(_, size) => {
                    block_size = size;
                    opened = true;
                }
                _ => assert!(!opened),
            }
        }
        assert!(opened);
        Ok(Engine { fixture: found.unwrap(), passwords, block_size, next_item: 0, current: None })
    }

    fn next_header(&mut self) -> HeaderReply {
        if self.fixture.header_encrypted {
            return HeaderReply {
                status: failed("The archive header is encrypted, but currently not supported"),
                pathname: None,
            };
        }
        if self.next_item == self.fixture.items.len() {
            self.current = None;
            return HeaderReply { status: Status::eof(), pathname: None };
        }
        let index = self.next_item;
        self.next_item += 1;
        self.current = Some((index, 0));
        HeaderReply {
            status: Status::ok(),
            pathname: Some(self.fixture.items[index].name.as_bytes().to_vec()),
        }
    }

    fn read_block(&mut self) -> BlockReply {
        let (index, offset) = self.current.expect("a block read needs a current entry");
        let item = &self.fixture.items[index];
        if let Some(secret) = item.passphrase {
            if offset == 0 {
                if self.passwords.is_empty() {
                    return BlockReply { status: failed("Passphrase required for this entry"), data: vec![] };
                }
                if !self.passwords.iter().any(|p| p == secret) {
                    let message = if self.passwords.last().unwrap().is_empty() {
                        "Empty passphrase is unacceptable"
                    } else {
                        "Incorrect passphrase"
                    };
                    return BlockReply { status: failed(message), data: vec![] };
                }
            }
        }
        if offset == item.content.len() {
            return BlockReply { status: Status::eof(), data: vec![] };
        }
        let end = item.content.len().min(offset + self.block_size.min(ENGINE_CHUNK));
        let data = item.content[offset..end].to_vec();
        self.current = Some((index, end));
        BlockReply { status: Status { code: ARCHIVE_OK, message: None, errno: 0 }, data }
    }
}

// Drivers: each performs what the traversal requests and hands back the reply.

fn list_names<D: Decoder + Copy>(archive: &Archive<D>) -> Result<Vec<String>, Error> {
    let mut engine = Engine::open(archive)?;
    let mut names = archive.list_file_names();
    let mut out = Vec::new();
    while !names.is_finished() {
        match names.next(engine.next_header()) {
            None => break,
            Some(name) => out.push(name?),
        }
    }
    Ok(out)
}

fn read_file<D: Decoder + Copy>(archive: &Archive<D>, name: &str, output: &mut Vec<u8>) -> Result<usize, Error> {
    let mut engine = Engine::open(archive)?;
    let mut read = archive.read_file(name);
    loop {
        match read.next_request() {
            Some(Request::NextHeader) => {
                if let Some(e) = read.on_header(engine.next_header()) {
                    return Err(e);
                }
            }
            Some(Request::ReadBlock) => {
                if let Some(done) = read.on_block(engine.read_block(), output) {
                    return done;
                }
            }
            None => unreachable!(),
        }
    }
}

fn read_blocks<D: Decoder + Copy>(archive: &Archive<D>, name: &str) -> Result<Vec<Vec<u8>>, Error> {
    let mut engine = Engine::open(archive)?;
    let mut blocks = archive.read_file_by_block(name);
    let mut out = Vec::new();
    loop {
        match blocks.next_request() {
            Some(Request::NextHeader) => {
                if let Some(e) = blocks.on_header(engine.next_header()) {
                    return Err(e);
                }
            }
            Some(Request::ReadBlock) => match blocks.on_block(engine.read_block()) {
                Some(block) => out.push(block?.to_vec()),
                None => return Ok(out),
            },
            None => return Ok(out),
        }
    }
}

fn each_entry<D: Decoder + Copy>(
    archive: &Archive<D>,
    mut process: impl FnMut(Entry, &mut Engine) -> Result<(), Error>,
) -> Result<(), Error> {
    let mut engine = Engine::open(archive)?;
    let mut entries = archive.entries();
    while !entries.is_finished() {
        match entries.next(engine.next_header()) {
            None => break,
            Some(entry) => process(entry?, &mut engine)?,
        }
    }
    Ok(())
}

fn entry_content(entry: Entry, engine: &mut Engine) -> Result<Vec<u8>, Error> {
    let mut content = Vec::new();
    let mut blocks = entry.read_file_by_block();
    while !blocks.is_ended() {
        match blocks.next(engine.read_block()) {
            Some(block) => content.extend(block?.iter()),
            None => break,
        }
    }
    Ok(content)
}

fn read_to_bytes(archive_path: &str, file_name: &str) -> Result<Vec<u8>, Error> {
    let mut output = Vec::new();
    read_file(&Archive::open(archive_path), file_name, &mut output)?;
    Ok(output)
}

fn sorted_by_length(mut names: Vec<String>) -> Vec<String> {
    names.sort_by_key(|name| name.len());
    names
}

// Tests of the `Archive` interface.

#[test]
fn archive_tests_test_list_zip_file_names() -> Result<(), Error> {
    let file_names = list_names(&Archive::open(ZIP))?;
    assert_eq!(
        file_names,
        ["content/", "content/first", "content/third", "content/nested/", "content/nested/second"]
    );
    Ok(())
}

#[test]
fn archive_tests_test_list_7z_file_names() -> Result<(), Error> {
    let file_names = list_names(&Archive::open(SEVEN_Z))?;
    assert_eq!(
        file_names,
        ["content/", "content/nested/", "content/first", "content/nested/second", "content/third"]
    );
    Ok(())
}

#[test]
fn archive_tests_test_list_rar_file_names() -> Result<(), Error> {
    let file_names = list_names(&Archive::open(RAR))?;
    assert_eq!(
        file_names,
        ["content/first", "content/third", "content/nested/second", "content/nested", "content"]
    );
    Ok(())
}

#[test]
fn archive_tests_test_read_zip() -> Result<(), Error> {
    let mut output = vec![];
    let _ = read_file(&Archive::open(ZIP), "content/nested/second", &mut output)?;
    assert_eq!(output, b"second\n");
    Ok(())
}

#[test]
fn archive_tests_test_read_7z() -> Result<(), Error> {
    let mut output = vec![];
    let _ = read_file(&Archive::open(SEVEN_Z), "content/nested/second", &mut output)?;
    assert_eq!(output, b"second\n");
    Ok(())
}

#[test]
fn archive_tests_test_read_rar() -> Result<(), Error> {
    let mut output = vec![];
    let _ = read_file(&Archive::open(RAR), "content/nested/second", &mut output)?;
    assert_eq!(output, b"second\n");
    Ok(())
}

#[test]
fn archive_tests_test_read_non_existing_file() -> Result<(), Error> {
    let mut output = vec![];
    let read_result = read_file(&Archive::open(ZIP), "not_existed", &mut output);
    assert_eq!(read_result, Err(Error::Io(IoErrorKind::NotFound)));
    assert!(output.is_empty());
    Ok(())
}

#[test]
fn archive_tests_test_empty_file() -> Result<(), Error> {
    let mut output = vec![];
    let _ = read_file(&Archive::open(EMPTY_ZIP), "empty", &mut output)?;
    assert_eq!(output, b"");
    Ok(())
}

#[test]
fn test_read_dir() -> Result<(), Error> {
    let mut output = vec![];
    let _ = read_file(&Archive::open(ZIP), "content/", &mut output)?;
    assert_eq!(output, b"");
    Ok(())
}

#[test]
fn archive_tests_test_read_by_blocks() -> Result<(), Error> {
    let expected = large_text();
    let mut archive = Archive::open(LARGE_ZIP);
    archive.block_size(1024);
    let blocks = read_blocks(&archive, "large.txt")?;
    let num_of_blocks = blocks.len();
    let bytes: Vec<u8> = blocks.concat();
    assert!(num_of_blocks > 1);
    assert_eq!(expected, bytes.as_slice());
    Ok(())
}

#[test]
fn archive_tests_test_file_names_from_entries() -> Result<(), Error> {
    let mut names = vec![];
    let archive = Archive::open(ZIP);
    each_entry(&archive, |entry, _| {
        let file_name = entry.file_name(&archive_reader::Utf8)?.to_string();
        names.push(file_name);
        Ok(())
    })?;
    assert_eq!(
        names,
        ["content/", "content/first", "content/third", "content/nested/", "content/nested/second"]
    );
    Ok(())
}

#[test]
fn archive_tests_test_file_content_from_entries() -> Result<(), Error> {
    let mut all_content = vec![];
    each_entry(&Archive::open(ZIP), |entry, engine| {
        all_content.push(entry_content(entry, engine)?);
        Ok(())
    })?;
    let expected: Vec<&[u8]> = vec![b"", b"first\n", b"third\n", b"", b"second\n"];
    assert_eq!(expected, all_content);
    Ok(())
}

#[test]
fn archive_tests_test_entry_name_reproducible() -> Result<(), Error> {
    each_entry(&Archive::open(ZIP), |entry, _| {
        assert_eq!(entry.file_name(&archive_reader::Utf8)?, entry.file_name(&archive_reader::Utf8)?);
        Ok(())
    })?;
    Ok(())
}

#[test]
fn test_read_file_names_from_encrypted_archive_success() -> Result<(), Error> {
    let file_names = list_names(&Archive::open(ENCRYPTED_ZIP))?;
    assert_eq!(file_names, ["encrypted"]);
    Ok(())
}

#[test]
fn test_read_encrypted_archive_failed_without_password() -> Result<(), Error> {
    let mut file_content = vec![];
    let read_result = read_file(&Archive::open(ENCRYPTED_ZIP), "encrypted", &mut file_content);
    assert_eq!(read_result, Err(Error::Extraction("Passphrase required for this entry".into())));
    Ok(())
}

#[test]
fn test_read_encrypted_archive_failed_with_empty_password() -> Result<(), Error> {
    let mut file_content = vec![];
    let mut archive = Archive::open(ENCRYPTED_ZIP);
    archive.try_password("");
    let read_result = read_file(&archive, "encrypted", &mut file_content);
    assert_eq!(read_result, Err(Error::Extraction("Empty passphrase is unacceptable".into())));
    Ok(())
}

#[test]
fn test_read_encrypted_archive_failed_wrong_password() -> Result<(), Error> {
    let mut file_content = vec![];
    let mut archive = Archive::open(ENCRYPTED_ZIP);
    archive.try_password("wrong");
    let read_result = read_file(&archive, "encrypted", &mut file_content);
    assert_eq!(read_result, Err(Error::Extraction("Incorrect passphrase".into())));
    Ok(())
}

#[test]
fn test_read_encrypted_archive_success() -> Result<(), Error> {
    let mut file_content = vec![];
    let mut archive = Archive::open(ENCRYPTED_ZIP);
    archive.try_password("password");
    read_file(&archive, "encrypted", &mut file_content)?;
    assert_eq!(file_content, b"encrypted\n");
    Ok(())
}

#[test]
fn test_read_encrypted_archive_success_with_multiple_password() -> Result<(), Error> {
    let mut file_content = vec![];
    let mut archive = Archive::open(ENCRYPTED_ZIP);
    archive.try_password("password").try_password("wrong").try_password("wrong2");
    read_file(&archive, "encrypted", &mut file_content)?;
    assert_eq!(file_content, b"encrypted\n");
    Ok(())
}

#[test]
fn test_read_file_names_from_encrypted_7z_failed() -> Result<(), Error> {
    let mut archive = Archive::open(ENCRYPTED_7Z);
    archive.try_password("password");
    let file_names = list_names(&archive);
    assert_eq!(
        file_names,
        Err(Error::Extraction("The archive header is encrypted, but currently not supported".into()))
    );
    Ok(())
}

// Tests of the reader interface: names sorted by length, default settings.

#[test]
fn tests_test_list_file_names_zip() -> Result<(), Error> {
    let expected = ["content/", "content/first", "content/third", "content/nested/", "content/nested/second"];
    assert_eq!(sorted_by_length(list_names(&Archive::open(ZIP))?), expected);
    Ok(())
}

#[test]
fn tests_test_list_file_names_7z() -> Result<(), Error> {
    let expected = ["content/", "content/first", "content/third", "content/nested/", "content/nested/second"];
    assert_eq!(sorted_by_length(list_names(&Archive::open(SEVEN_Z))?), expected);
    Ok(())
}

#[test]
fn tests_test_list_file_names_rar() -> Result<(), Error> {
    let expected = ["content", "content/first", "content/third", "content/nested", "content/nested/second"];
    assert_eq!(sorted_by_length(list_names(&Archive::open(RAR))?), expected);
    Ok(())
}

#[test]
fn tests_test_read_zip() -> Result<(), Error> {
    assert_eq!(read_to_bytes(ZIP, "content/nested/second")?, b"second\n");
    Ok(())
}

#[test]
fn tests_test_read_7z() -> Result<(), Error> {
    assert_eq!(read_to_bytes(SEVEN_Z, "content/nested/second")?, b"second\n");
    Ok(())
}

#[test]
fn tests_test_read_rar() -> Result<(), Error> {
    assert_eq!(read_to_bytes(RAR, "content/nested/second")?, b"second\n");
    Ok(())
}

#[test]
#[should_panic]
fn tests_test_read_non_existing_file() {
    read_to_bytes(ZIP, "not_existed").unwrap();
}

#[test]
fn tests_test_empty_file() -> Result<(), Error> {
    assert_eq!(read_to_bytes(EMPTY_ZIP, "empty")?, b"");
    Ok(())
}

#[test]
fn tests_test_read_by_blocks() -> Result<(), Error> {
    let expected = large_text();
    let blocks = read_blocks(&Archive::open(LARGE_ZIP), "large.txt")?;
    let mut bytes = Vec::new();
    for block in &blocks {
        bytes.extend(block.iter());
    }
    assert!(blocks.len() > 1);
    assert_eq!(expected, bytes.as_slice());
    Ok(())
}

#[test]
fn tests_test_empty_by_block() -> Result<(), Error> {
    let blocks = read_blocks(&Archive::open(EMPTY_ZIP), "empty")?;
    let mut bytes = Vec::<u8>::new();
    for block in &blocks {
        bytes.extend(block.iter());
    }
    assert_eq!(blocks.len(), 0);
    assert_eq!(bytes, &[]);
    Ok(())
}

// The same with a 1 KiB block size and lossy names.

fn reader_archive(path: &str) -> Archive<Utf8Lossy> {
    let mut archive = Archive::open(path);
    archive.block_size(1024);
    archive.decoder(Utf8Lossy)
}

#[test]
fn reader_tests_test_list_file_names_zip() -> Result<(), Error> {
    let expected = ["content/", "content/first", "content/third", "content/nested/", "content/nested/second"];
    assert_eq!(sorted_by_length(list_names(&reader_archive(ZIP))?), expected);
    Ok(())
}

#[test]
fn reader_tests_test_list_file_names_7z() -> Result<(), Error> {
    let expected = ["content/", "content/first", "content/third", "content/nested/", "content/nested/second"];
    assert_eq!(sorted_by_length(list_names(&reader_archive(SEVEN_Z))?), expected);
    Ok(())
}

#[test]
fn reader_tests_test_list_file_names_rar() -> Result<(), Error> {
    let expected = ["content", "content/first", "content/third", "content/nested", "content/nested/second"];
    assert_eq!(sorted_by_length(list_names(&reader_archive(RAR))?), expected);
    Ok(())
}

#[test]
fn reader_tests_test_read_zip() -> Result<(), Error> {
    let mut output = vec![];
    read_file(&reader_archive(ZIP), "content/nested/second", &mut output)?;
    assert_eq!(output, b"second\n");
    Ok(())
}

#[test]
fn reader_tests_test_read_7z() -> Result<(), Error> {
    let mut output = vec![];
    read_file(&reader_archive(SEVEN_Z), "content/nested/second", &mut output)?;
    assert_eq!(output, b"second\n");
    Ok(())
}

#[test]
fn reader_tests_test_read_rar() -> Result<(), Error> {
    let mut output = vec![];
    read_file(&reader_archive(RAR), "content/nested/second", &mut output)?;
    assert_eq!(output, b"second\n");
    Ok(())
}

#[test]
#[should_panic]
fn reader_tests_test_read_non_existing_file() {
    let mut output = vec![];
    read_file(&reader_archive(ZIP), "not_existed", &mut output).unwrap();
}

#[test]
fn reader_tests_test_empty_file() -> Result<(), Error> {
    let mut output = vec![];
    read_file(&reader_archive(EMPTY_ZIP), "empty", &mut output)?;
    assert_eq!(output, b"");
    Ok(())
}

#[test]
fn reader_tests_test_read_by_blocks() -> Result<(), Error> {
    let expected = large_text();
    let blocks = read_blocks(&reader_archive(LARGE_ZIP), "large.txt")?;
    assert!(blocks.len() > 1);
    assert_eq!(expected, blocks.concat().as_slice());
    Ok(())
}

#[test]
fn reader_tests_test_empty_by_block() -> Result<(), Error> {
    let blocks = read_blocks(&reader_archive(EMPTY_ZIP), "empty")?;
    assert_eq!(blocks.len(), 0);
    assert_eq!(blocks.concat(), Vec::<u8>::new());
    Ok(())
}

// Further scenarios.

#[test]
fn whole_read_counts_every_byte() -> Result<(), Error> {
    let mut archive = Archive::open(LARGE_ZIP);
    archive.block_size(1024);
    let mut output = vec![];
    let written = read_file(&archive, "large.txt", &mut output)?;
    assert_eq!(written, large_text().len());
    assert_eq!(output, large_text());
    Ok(())
}

#[test]
fn blocks_concatenate_to_whole_read() -> Result<(), Error> {
    let mut archive = Archive::open(LARGE_ZIP);
    archive.block_size(1024);
    let blocks = read_blocks(&archive, "large.txt")?;
    let mut whole = vec![];
    read_file(&archive, "large.txt", &mut whole)?;
    assert!(blocks.len() > 1);
    assert!(blocks.iter().all(|b| b.len() <= 1024));
    assert_eq!(blocks.concat(), whole);
    Ok(())
}

#[test]
fn missing_archive_is_not_found() {
    assert_eq!(list_names(&Archive::open("test_resources/absent.zip")), Err(Error::Io(IoErrorKind::NotFound)));
}

#[test]
fn passphrases_registered_in_order_before_open() {
    let mut archive = Archive::open(ENCRYPTED_ZIP);
    archive.try_password("a").try_password("b");
    archive.block_size(512);
    let calls = archive.open_calls(true).unwrap();
    assert_eq!(
        calls,
        vec![
            EngineCall::SupportFilterAll,
            EngineCall::SupportFormatRaw,
            EngineCall::SupportFormatAll,
            EngineCall::AddPassphrase("a".to_string()),
            EngineCall::AddPassphrase("b".to_string()),
            EngineCall::OpenFilename(ENCRYPTED_ZIP.to_string(), 512),
        ]
    );
}

#[test]
fn skipped_entries_are_not_readable_afterwards() -> Result<(), Error> {
    let archive = Archive::open(ZIP);
    let mut engine = Engine::open(&archive)?;
    let mut read = archive.read_file("content/third");
    while read.next_request() == Some(Request::NextHeader) {
        assert_eq!(read.on_header(engine.next_header()), None);
    }
    let mut output = vec![];
    while read.next_request() == Some(Request::ReadBlock) {
        if let Some(done) = read.on_block(engine.read_block(), &mut output) {
            assert_eq!(done, Ok(6));
        }
    }
    assert_eq!(output, b"third\n");
    assert_eq!(read.next_request(), None);
    Ok(())
}

#[test]
fn exhausted_listing_stays_exhausted() -> Result<(), Error> {
    let archive = Archive::open(EMPTY_ZIP);
    let mut engine = Engine::open(&archive)?;
    let mut names = archive.list_file_names();
    assert_eq!(names.next(engine.next_header()), Some(Ok("empty".to_string())));
    assert!(!names.is_finished());
    assert_eq!(names.next(engine.next_header()), None);
    assert!(names.is_finished());
    Ok(())
}

#[test]
fn eof_status_constant_is_one() {
    assert_eq!(Status::eof().code, ARCHIVE_EOF);
}
