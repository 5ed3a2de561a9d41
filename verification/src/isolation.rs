//! What holds of every resolution: a section that cannot be used has its
//! compiled-in value, a section that can is carried through unchanged, and
//! no section depends on the entries of another.

use vstd::prelude::*;
use vstd::utf8::{decode_utf8, valid_utf8};
use crate::config::{
    default_app, default_logger, default_server, default_settings, LoggerSettings, ServerSettings,
};
use crate::document::{integer_at, lookup, parsed_document, text_at, RawTree};
use crate::resolve::{
    app_notes, app_of, kind_choice, logger_kind, logger_notes, notes_of, resolved_app,
    resolved_logger, resolved_notes, resolved_server, resolved_settings, server_kind,
    server_notes, settings_of, tokio_at, tracing_at, Fallback, KindChoice, Section,
};

verus! {

/// The server section can be used: it is present, does not name an unknown
/// kind, and the table of its kind is well-formed.
pub open spec fn server_usable(document: RawTree) -> bool {
    &&& lookup(document, "server"@) matches Some(section)
    &&& kind_choice(section, server_kind()) != KindChoice::Unknown
    &&& tokio_at(document, server_kind()) is Some
}

/// The application section can be used: it is present and well-formed.
pub open spec fn app_usable(document: RawTree) -> bool {
    &&& lookup(document, "app"@) matches Some(section)
    &&& app_of(section) is Some
}

/// The logger section can be used: it is present, does not name an unknown
/// kind, and the table of its kind is well-formed.
pub open spec fn logger_usable(document: RawTree) -> bool {
    &&& lookup(document, "logger"@) matches Some(section)
    &&& kind_choice(section, logger_kind()) != KindChoice::Unknown
    &&& tracing_at(document, logger_kind()) is Some
}

/// The note says that a section was given up for its compiled-in value.
pub open spec fn gives_up(note: Fallback, section: Section) -> bool {
    note == Fallback::MissingSection(section) || note == Fallback::UnknownKind(section) || note
        == Fallback::MalformedSection(section)
}

/// A server section that cannot be used resolves to the compiled-in server
/// section, whatever the rest of the document holds, and the last note of
/// the section says so.
pub proof fn lemma_unusable_server_is_default(document: RawTree)
    requires
        !server_usable(document),
    ensures
        resolved_server(document) == default_server(),
        server_notes(document).len() > 0,
        gives_up(server_notes(document).last(), Section::Server),
{
}

/// An application section that cannot be used resolves to the compiled-in
/// application section, and the one note of the section says so.
pub proof fn lemma_unusable_app_is_default(document: RawTree)
    requires
        !app_usable(document),
    ensures
        resolved_app(document) == default_app(),
        app_notes(document).len() == 1,
        gives_up(app_notes(document).last(), Section::App),
{
}

/// A logger section that cannot be used resolves to the compiled-in logger
/// section, and the last note of the section says so.
pub proof fn lemma_unusable_logger_is_default(document: RawTree)
    requires
        !logger_usable(document),
    ensures
        resolved_logger(document) == default_logger(),
        logger_notes(document).len() > 0,
        gives_up(logger_notes(document).last(), Section::Logger),
{
}

/// A section is given up only with a note: where no note of a section says
/// that it was given up, the section can be used.
pub proof fn lemma_silent_sections_are_usable(document: RawTree)
    ensures
        (forall|i: int|
            0 <= i < server_notes(document).len() ==> !gives_up(
                #[trigger] server_notes(document)[i],
                Section::Server,
            )) ==> server_usable(document),
        (forall|i: int|
            0 <= i < app_notes(document).len() ==> !gives_up(
                #[trigger] app_notes(document)[i],
                Section::App,
            )) ==> app_usable(document),
        (forall|i: int|
            0 <= i < logger_notes(document).len() ==> !gives_up(
                #[trigger] logger_notes(document)[i],
                Section::Logger,
            )) ==> logger_usable(document),
{
    if !server_usable(document) {
        let last = server_notes(document).len() - 1;
        assert(gives_up(server_notes(document)[last], Section::Server));
    }
    if !app_usable(document) {
        assert(gives_up(app_notes(document)[0], Section::App));
    }
    if !logger_usable(document) {
        let last = logger_notes(document).len() - 1;
        assert(gives_up(logger_notes(document)[last], Section::Logger));
    }
}

/// A server section that names a kind other than the known one resolves to
/// the compiled-in server section, with the one note that says so.
pub proof fn lemma_unknown_server_kind_is_default(
    document: RawTree,
    section: RawTree,
    kind: Seq<char>,
)
    requires
        lookup(document, "server"@) == Some(section),
        text_at(section, "kind"@) == Some(kind),
        kind != server_kind(),
    ensures
        resolved_server(document) == default_server(),
        server_notes(document) == seq![Fallback::UnknownKind(Section::Server)],
{
}

/// A logger section that names a kind other than the known one resolves to
/// the compiled-in logger section, with the one note that says so.
pub proof fn lemma_unknown_logger_kind_is_default(
    document: RawTree,
    section: RawTree,
    kind: Seq<char>,
)
    requires
        lookup(document, "logger"@) == Some(section),
        text_at(section, "kind"@) == Some(kind),
        kind != logger_kind(),
    ensures
        resolved_logger(document) == default_logger(),
        logger_notes(document) == seq![Fallback::UnknownKind(Section::Logger)],
{
}

/// Every field that a well-formed server table declares is carried through
/// unchanged: the numbers as numbers, the texts character for character.
pub proof fn lemma_server_fields_carried(document: RawTree, table: RawTree)
    requires
        server_usable(document),
        lookup(document, server_kind()) == Some(table),
    ensures
        resolved_server(document) matches ServerSettings::Tokio(tokio) && {
            &&& integer_at(table, "worker_threads"@) == Some(tokio.worker_threads as i64)
            &&& integer_at(table, "blocking_threads"@) == Some(tokio.blocking_threads as i64)
            &&& integer_at(table, "keep_alive"@) == Some(tokio.keep_alive as i64)
            &&& integer_at(table, "stack_size"@) == Some(tokio.stack_size as i64)
            &&& text_at(table, "address"@) == Some(tokio.address)
            &&& text_at(table, "port"@) == Some(tokio.port)
        },
        forall|i: int|
            0 <= i < server_notes(document).len() ==> !gives_up(
                #[trigger] server_notes(document)[i],
                Section::Server,
            ),
{
}

/// Every field that a well-formed application section declares is carried
/// through unchanged, without a note.
pub proof fn lemma_app_fields_carried(document: RawTree, section: RawTree)
    requires
        app_usable(document),
        lookup(document, "app"@) == Some(section),
    ensures
        text_at(section, "app_name"@) == Some(resolved_app(document).app_name),
        text_at(section, "version"@) == Some(resolved_app(document).version),
        app_notes(document) == Seq::<Fallback>::empty(),
{
}

/// Every field that a well-formed logger table declares is carried through
/// unchanged.
pub proof fn lemma_logger_fields_carried(document: RawTree, table: RawTree)
    requires
        logger_usable(document),
        lookup(document, logger_kind()) == Some(table),
    ensures
        resolved_logger(document) matches LoggerSettings::Tracing(tracing) && {
            &&& text_at(table, "log_level"@) == Some(tracing.log_level)
            &&& text_at(table, "logfile_path"@) == Some(tracing.logfile_path)
            &&& text_at(table, "logfile_name"@) == Some(tracing.logfile_name)
        },
        forall|i: int|
            0 <= i < logger_notes(document).len() ==> !gives_up(
                #[trigger] logger_notes(document)[i],
                Section::Logger,
            ),
{
}

/// The server section depends on two entries of the document alone: the
/// one named `server` and the table named after the server kind.
pub proof fn lemma_server_reads_its_entries(first: RawTree, second: RawTree)
    requires
        lookup(first, "server"@) == lookup(second, "server"@),
        lookup(first, server_kind()) == lookup(second, server_kind()),
    ensures
        resolved_server(first) == resolved_server(second),
        server_notes(first) == server_notes(second),
{
}

/// The application section depends on one entry of the document alone.
pub proof fn lemma_app_reads_its_entry(first: RawTree, second: RawTree)
    requires
        lookup(first, "app"@) == lookup(second, "app"@),
    ensures
        resolved_app(first) == resolved_app(second),
        app_notes(first) == app_notes(second),
{
}

/// The logger section depends on two entries of the document alone: the
/// one named `logger` and the table named after the logger kind.
pub proof fn lemma_logger_reads_its_entries(first: RawTree, second: RawTree)
    requires
        lookup(first, "logger"@) == lookup(second, "logger"@),
        lookup(first, logger_kind()) == lookup(second, logger_kind()),
    ensures
        resolved_logger(first) == resolved_logger(second),
        logger_notes(first) == logger_notes(second),
{
}

/// The five names that the resolution looks up at the top of a document
/// are pairwise different.
pub proof fn lemma_names_differ()
    ensures
        "server"@ != "app"@,
        "server"@ != "logger"@,
        "server"@ != server_kind(),
        "server"@ != logger_kind(),
        "app"@ != "logger"@,
        "app"@ != server_kind(),
        "app"@ != logger_kind(),
        "logger"@ != server_kind(),
        "logger"@ != logger_kind(),
        server_kind() != logger_kind(),
{
    reveal_strlit("server");
    reveal_strlit("app");
    reveal_strlit("logger");
    reveal_strlit("pooled-async");
    reveal_strlit("structured-file");
    assert("server"@.len() == 6 && "server"@[0] == 's');
    assert("app"@.len() == 3);
    assert("logger"@.len() == 6 && "logger"@[0] == 'l');
    assert("pooled-async"@.len() == 12);
    assert("structured-file"@.len() == 15);
}

/// Whatever stands in the logger's two entries, broken or not, the server
/// and application sections resolve as they do without them.
pub proof fn lemma_logger_entries_leave_the_rest(
    entries: Map<Seq<char>, RawTree>,
    section: RawTree,
    table: RawTree,
)
    ensures
        ({
            let changed = RawTree::Table(
                entries.insert("logger"@, section).insert(logger_kind(), table),
            );
            &&& resolved_server(changed) == resolved_server(RawTree::Table(entries))
            &&& server_notes(changed) == server_notes(RawTree::Table(entries))
            &&& resolved_app(changed) == resolved_app(RawTree::Table(entries))
            &&& app_notes(changed) == app_notes(RawTree::Table(entries))
        }),
{
    lemma_names_differ();
    let changed = RawTree::Table(entries.insert("logger"@, section).insert(logger_kind(), table));
    lemma_server_reads_its_entries(changed, RawTree::Table(entries));
    lemma_app_reads_its_entry(changed, RawTree::Table(entries));
}

/// Whatever stands in the server's two entries, broken or not, the
/// application and logger sections resolve as they do without them.
pub proof fn lemma_server_entries_leave_the_rest(
    entries: Map<Seq<char>, RawTree>,
    section: RawTree,
    table: RawTree,
)
    ensures
        ({
            let changed = RawTree::Table(
                entries.insert("server"@, section).insert(server_kind(), table),
            );
            &&& resolved_app(changed) == resolved_app(RawTree::Table(entries))
            &&& app_notes(changed) == app_notes(RawTree::Table(entries))
            &&& resolved_logger(changed) == resolved_logger(RawTree::Table(entries))
            &&& logger_notes(changed) == logger_notes(RawTree::Table(entries))
        }),
{
    lemma_names_differ();
    let changed = RawTree::Table(entries.insert("server"@, section).insert(server_kind(), table));
    lemma_app_reads_its_entry(changed, RawTree::Table(entries));
    lemma_logger_reads_its_entries(changed, RawTree::Table(entries));
}

/// Whatever stands in the application's entry, broken or not, the server
/// and logger sections resolve as they do without it.
pub proof fn lemma_app_entry_leaves_the_rest(entries: Map<Seq<char>, RawTree>, section: RawTree)
    ensures
        ({
            let changed = RawTree::Table(entries.insert("app"@, section));
            &&& resolved_server(changed) == resolved_server(RawTree::Table(entries))
            &&& server_notes(changed) == server_notes(RawTree::Table(entries))
            &&& resolved_logger(changed) == resolved_logger(RawTree::Table(entries))
            &&& logger_notes(changed) == logger_notes(RawTree::Table(entries))
        }),
{
    lemma_names_differ();
    let changed = RawTree::Table(entries.insert("app"@, section));
    lemma_server_reads_its_entries(changed, RawTree::Table(entries));
    lemma_logger_reads_its_entries(changed, RawTree::Table(entries));
}

/// The content of a file that holds a well-formed document.
pub open spec fn document_of(content: Option<Seq<u8>>) -> Option<RawTree> {
    match content {
        Some(bytes) => if valid_utf8(bytes) {
            parsed_document(decode_utf8(bytes))
        } else {
            None
        },
        None => None,
    }
}

/// Every content resolves: a file that could not be read, bytes that are
/// no text and a text that is no document give the fully default
/// configuration with the one note that says why, and a document gives
/// what its sections resolve to, each by itself.
pub proof fn lemma_every_content_resolves(content: Option<Seq<u8>>)
    ensures
        document_of(content) matches Some(document) ==> settings_of(content) == resolved_settings(
            document,
        ) && notes_of(content) == resolved_notes(document),
        document_of(content) is None ==> settings_of(content) == default_settings() && notes_of(
            content,
        ).len() == 1,
        document_of(content) is None ==> (notes_of(content)[0] == Fallback::Unreadable <==> !(
        content matches Some(bytes) && valid_utf8(bytes))),
        document_of(content) is None ==> (notes_of(content)[0] == Fallback::Malformed <==> (
        content matches Some(bytes) && valid_utf8(bytes))),
{
}

/// A document without any of the three sections resolves to the fully
/// default configuration, with one note for each missing section.
pub proof fn lemma_bare_document_is_default(document: RawTree)
    requires
        lookup(document, "server"@) is None,
        lookup(document, "app"@) is None,
        lookup(document, "logger"@) is None,
    ensures
        resolved_settings(document) == default_settings(),
        resolved_notes(document) == seq![
            Fallback::MissingSection(Section::Server),
            Fallback::MissingSection(Section::App),
            Fallback::MissingSection(Section::Logger),
        ],
{
}

} // verus!
