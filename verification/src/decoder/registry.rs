//! The database of known errors: for each program its named errors, and
//! the errors of the framework that no program owns.

use crate::output::{DecodedError, DecodedErrorView};
use vstd::prelude::*;
use vstd::string::StringExecFns;

verus! {

/// One known error.
#[derive(Debug)]
pub struct ErrorEntry {
    pub code: u32,
    pub name: String,
    pub msg: String,
}

/// An [`ErrorEntry`] as a mathematical value.
pub struct ErrorEntryView {
    pub code: u32,
    pub name: Seq<char>,
    pub msg: Seq<char>,
}

impl View for ErrorEntry {
    type V = ErrorEntryView;

    open spec fn view(&self) -> ErrorEntryView {
        ErrorEntryView { code: self.code, name: self.name@, msg: self.msg@ }
    }
}

/// The errors of one program, under the program's name.
#[derive(Debug)]
pub struct ProgramErrors {
    pub name: String,
    pub errors: Vec<ErrorEntry>,
}

/// A [`ProgramErrors`] as a mathematical value.
pub struct ProgramErrorsView {
    pub name: Seq<char>,
    pub errors: Seq<ErrorEntryView>,
}

/// The entries of a list as mathematical values.
pub open spec fn entry_views(errors: Seq<ErrorEntry>) -> Seq<ErrorEntryView> {
    errors.map_values(|e: ErrorEntry| e@)
}

impl View for ProgramErrors {
    type V = ProgramErrorsView;

    open spec fn view(&self) -> ProgramErrorsView {
        ProgramErrorsView { name: self.name@, errors: entry_views(self.errors@) }
    }
}

/// All that is known: the programs, each under its identifier, and the
/// framework's own errors.
///
/// A program is looked up by the first entry that carries its identifier, so
/// a database in which no identifier occurs twice ([`ErrorDatabase::distinct_ids`])
/// is a mapping from identifiers to programs.
#[derive(Debug)]
pub struct ErrorDatabase {
    pub programs: Vec<(String, ProgramErrors)>,
    pub anchor_errors: Vec<ErrorEntry>,
}

/// An [`ErrorDatabase`] as a mathematical value.
pub struct ErrorDatabaseView {
    pub programs: Seq<(Seq<char>, ProgramErrorsView)>,
    pub anchor_errors: Seq<ErrorEntryView>,
}

/// The programs of a list as mathematical values.
pub open spec fn program_views(programs: Seq<(String, ProgramErrors)>) -> Seq<
    (Seq<char>, ProgramErrorsView),
> {
    programs.map_values(|p: (String, ProgramErrors)| (p.0@, p.1@))
}

impl View for ErrorDatabase {
    type V = ErrorDatabaseView;

    open spec fn view(&self) -> ErrorDatabaseView {
        ErrorDatabaseView {
            programs: program_views(self.programs@),
            anchor_errors: entry_views(self.anchor_errors@),
        }
    }
}

impl ErrorDatabaseView {
    /// Whether no identifier stands for two programs.
    pub open spec fn distinct_ids(self) -> bool {
        forall|i: int, j: int|
            0 <= i < j < self.programs.len() ==> (#[trigger] self.programs[i]).0 != (
            #[trigger] self.programs[j]).0
    }

    /// The database in which `program` stands under `id`: in the place of
    /// the program that stood there, or else as the last.
    pub open spec fn with_program(self, id: Seq<char>, program: ProgramErrorsView) -> ErrorDatabaseView {
        ErrorDatabaseView {
            programs: match program_position(self.programs, id) {
                Some(i) => self.programs.update(i, (id, program)),
                None => self.programs.push((id, program)),
            },
            anchor_errors: self.anchor_errors,
        }
    }
}

impl ErrorDatabase {
    /// Whether no identifier stands for two programs.
    pub open spec fn distinct_ids(&self) -> bool {
        self@.distinct_ids()
    }

    /// The database that knows nothing.
    pub fn new() -> (db: ErrorDatabase)
        ensures
            db@.programs == Seq::<(Seq<char>, ProgramErrorsView)>::empty(),
            db@.anchor_errors == Seq::<ErrorEntryView>::empty(),
    {
        let db = ErrorDatabase { programs: Vec::new(), anchor_errors: Vec::new() };
        assert(db@.programs =~= Seq::empty());
        assert(db@.anchor_errors =~= Seq::empty());
        db
    }

    /// Puts `program` under the identifier `id`, in the place of what stood
    /// there before. It is then found under `id`, and no identifier comes to
    /// stand twice.
    pub fn insert_program(&mut self, id: String, program: ProgramErrors)
        ensures
            final(self)@ == old(self)@.with_program(id@, program@),
            find_program(final(self)@.programs, id@) == Some(program@),
            old(self).distinct_ids() ==> final(self).distinct_ids(),
    {
        let ghost before = self@;
        proof {
            lemma_inserted_is_found(before, id@, program@);
            if before.distinct_ids() {
                lemma_insert_keeps_distinct(before, id@, program@);
            }
        }
        match position_of_program(self, &id) {
            Some(i) => {
                self.programs.set(i, (id, program));
                assert(self@.programs =~= before.programs.update(i as int, (id@, program@)));
            },
            None => {
                self.programs.push((id, program));
                assert(self@.programs =~= before.programs.push((id@, program@)));
            },
        }
        assert(self@.anchor_errors == before.anchor_errors);
    }
}

/// The label under which the framework's own errors are reported.
pub open spec fn framework_label() -> Seq<char> {
    "Anchor Framework"@
}

/// The first entry of `errors` that has the code `code`.
pub open spec fn find_entry(errors: Seq<ErrorEntryView>, code: u32) -> Option<ErrorEntryView>
    decreases errors.len(),
{
    if errors.len() == 0 {
        None
    } else if errors.first().code == code {
        Some(errors.first())
    } else {
        find_entry(errors.drop_first(), code)
    }
}

/// The first position of `programs` at which the identifier `id` stands.
pub open spec fn program_position(
    programs: Seq<(Seq<char>, ProgramErrorsView)>,
    id: Seq<char>,
) -> Option<int>
    decreases programs.len(),
{
    if programs.len() == 0 {
        None
    } else if programs.first().0 == id {
        Some(0)
    } else {
        match program_position(programs.drop_first(), id) {
            Some(i) => Some(i + 1),
            None => None,
        }
    }
}

/// The first program of `programs` that stands under the identifier `id`.
pub open spec fn find_program(programs: Seq<(Seq<char>, ProgramErrorsView)>, id: Seq<char>) -> Option<
    ProgramErrorsView,
> {
    match program_position(programs, id) {
        Some(i) => Some(programs[i].1),
        None => None,
    }
}

/// The first program of `programs` whose name is `name`, with its identifier.
pub open spec fn find_program_named(
    programs: Seq<(Seq<char>, ProgramErrorsView)>,
    name: Seq<char>,
) -> Option<(Seq<char>, ProgramErrorsView)>
    decreases programs.len(),
{
    if programs.len() == 0 {
        None
    } else if programs.first().1.name == name {
        Some(programs.first())
    } else {
        find_program_named(programs.drop_first(), name)
    }
}

/// The record of a known error, attributed to `program_id`.
pub open spec fn known_error(program_id: Seq<char>, entry: ErrorEntryView) -> DecodedErrorView {
    DecodedErrorView::new(entry.code).with_program(program_id).with_name(entry.name).with_message(
        entry.msg,
    )
}

/// What the database knows of `code` in the program `program_id`.
pub open spec fn program_error(db: ErrorDatabaseView, program_id: Seq<char>, code: u32) -> Option<
    DecodedErrorView,
> {
    match find_program(db.programs, program_id) {
        Some(program) => match find_entry(program.errors, code) {
            Some(entry) => Some(known_error(program_id, entry)),
            None => None,
        },
        None => None,
    }
}

/// What the database knows of `code` as an error of the framework.
pub open spec fn anchor_error(db: ErrorDatabaseView, code: u32) -> Option<DecodedErrorView> {
    match find_entry(db.anchor_errors, code) {
        Some(entry) => Some(known_error(framework_label(), entry)),
        None => None,
    }
}

/// The records of all errors of one program, in the order of the database.
pub open spec fn known_errors(program_id: Seq<char>, errors: Seq<ErrorEntryView>) -> Seq<
    DecodedErrorView,
> {
    errors.map_values(|e: ErrorEntryView| known_error(program_id, e))
}

/// The errors of the program that `key` identifies, or else names.
pub open spec fn program_errors(db: ErrorDatabaseView, key: Seq<char>) -> Option<
    Seq<DecodedErrorView>,
> {
    match find_program(db.programs, key) {
        Some(program) => Some(known_errors(key, program.errors)),
        None => match find_program_named(db.programs, key) {
            Some((id, program)) => Some(known_errors(id, program.errors)),
            None => None,
        },
    }
}

/// The name of the program that stands under `program_id`.
pub open spec fn program_name(db: ErrorDatabaseView, program_id: Seq<char>) -> Option<Seq<char>> {
    match find_program(db.programs, program_id) {
        Some(program) => Some(program.name),
        None => None,
    }
}

/// The position that [`program_position`] gives is the first at which the
/// identifier stands, and it gives none only where the identifier stands
/// nowhere.
pub proof fn lemma_program_position(programs: Seq<(Seq<char>, ProgramErrorsView)>, id: Seq<char>)
    ensures
        match program_position(programs, id) {
            Some(i) => 0 <= i < programs.len() && programs[i].0 == id && forall|j: int|
                0 <= j < i ==> (#[trigger] programs[j]).0 != id,
            None => forall|j: int| 0 <= j < programs.len() ==> (#[trigger] programs[j]).0 != id,
        },
    decreases programs.len(),
{
    if programs.len() > 0 && programs.first().0 != id {
        let rest = programs.drop_first();
        lemma_program_position(rest, id);
        match program_position(rest, id) {
            Some(i) => {
                assert forall|j: int| 0 <= j < i + 1 implies (#[trigger] programs[j]).0 != id by {
                    if j > 0 {
                        assert(rest[j - 1].0 != id);
                    }
                }
            },
            None => {
                assert forall|j: int| 0 <= j < programs.len() implies (#[trigger] programs[j]).0
                    != id by {
                    if j > 0 {
                        assert(rest[j - 1].0 != id);
                    }
                }
            },
        }
    }
}

/// Where the identifier stands at `i` and nowhere before, `i` is its
/// position.
pub proof fn lemma_first_is_position(
    programs: Seq<(Seq<char>, ProgramErrorsView)>,
    id: Seq<char>,
    i: int,
)
    requires
        0 <= i < programs.len(),
        programs[i].0 == id,
        forall|j: int| 0 <= j < i ==> (#[trigger] programs[j]).0 != id,
    ensures
        program_position(programs, id) == Some(i),
{
    lemma_program_position(programs, id);
}

/// A program that was put under an identifier is found there.
pub proof fn lemma_inserted_is_found(db: ErrorDatabaseView, id: Seq<char>, program: ProgramErrorsView)
    ensures
        find_program(db.with_program(id, program).programs, id) == Some(program),
{
    lemma_program_position(db.programs, id);
    let after = db.with_program(id, program).programs;
    match program_position(db.programs, id) {
        Some(i) => {
            assert forall|j: int| 0 <= j < i implies (#[trigger] after[j]).0 != id by {
                assert(db.programs[j].0 != id);
            }
            lemma_first_is_position(after, id, i);
        },
        None => {
            let i = db.programs.len() as int;
            assert forall|j: int| 0 <= j < i implies (#[trigger] after[j]).0 != id by {
                assert(db.programs[j].0 != id);
            }
            lemma_first_is_position(after, id, i);
        },
    }
}

/// Putting a program under one identifier changes nothing under another.
pub proof fn lemma_insert_keeps_others(
    db: ErrorDatabaseView,
    id: Seq<char>,
    program: ProgramErrorsView,
    other: Seq<char>,
)
    requires
        other != id,
    ensures
        find_program(db.with_program(id, program).programs, other) == find_program(
            db.programs,
            other,
        ),
{
    lemma_program_position(db.programs, id);
    lemma_program_position(db.programs, other);
    let after = db.with_program(id, program).programs;
    assert forall|j: int| 0 <= j < db.programs.len() implies ((#[trigger] after[j]).0 == other
        <==> db.programs[j].0 == other) && (db.programs[j].0 == other ==> after[j]
        == db.programs[j]) by {}
    match program_position(db.programs, other) {
        Some(i) => {
            assert forall|j: int| 0 <= j < i implies (#[trigger] after[j]).0 != other by {
                assert(db.programs[j].0 != other);
            }
            lemma_first_is_position(after, other, i);
        },
        None => {
            lemma_program_position(after, other);
            if let Some(k) = program_position(after, other) {
                if k < db.programs.len() {
                    assert(db.programs[k].0 != other);
                }
            }
        },
    }
}

/// A database in which no identifier stands twice stays so when a program
/// is put into it.
pub proof fn lemma_insert_keeps_distinct(
    db: ErrorDatabaseView,
    id: Seq<char>,
    program: ProgramErrorsView,
)
    requires
        db.distinct_ids(),
    ensures
        db.with_program(id, program).distinct_ids(),
{
    lemma_program_position(db.programs, id);
    let after = db.with_program(id, program).programs;
    assert forall|i: int, j: int| 0 <= i < j < after.len() implies (#[trigger] after[i]).0 != (
    #[trigger] after[j]).0 by {
        if j < db.programs.len() {
            assert(db.programs[i].0 != db.programs[j].0);
        } else {
            assert(db.programs[i].0 != id);
        }
    }
}

/// The records of a list as mathematical values.
pub open spec fn error_views(errors: Seq<DecodedError>) -> Seq<DecodedErrorView> {
    errors.map_values(|e: DecodedError| e@)
}

/// The position of the first entry of `errors` that has the code `code`.
fn position_of_code(errors: &Vec<ErrorEntry>, code: u32) -> (r: Option<usize>)
    ensures
        match r {
            Some(i) => i < errors.len() && find_entry(entry_views(errors@), code) == Some(
                errors[i as int]@,
            ),
            None => find_entry(entry_views(errors@), code) is None,
        },
{
    let ghost all = entry_views(errors@);
    let n: usize = errors.len();
    let mut i: usize = 0;
    assert(all.subrange(0, n as int) =~= all);
    while i < n
        invariant
            i <= n == errors.len(),
            all == entry_views(errors@),
            find_entry(all.subrange(i as int, n as int), code) == find_entry(all, code),
        decreases n - i,
    {
        if errors[i].code == code {
            return Some(i);
        }
        assert(all.subrange(i as int, n as int).drop_first() =~= all.subrange(i + 1, n as int));
        i += 1;
    }
    None
}

/// The position of the first program that stands under the identifier `id`.
fn position_of_program(db: &ErrorDatabase, id: &String) -> (r: Option<usize>)
    ensures
        match r {
            Some(i) => i < db.programs.len() && program_position(db@.programs, id@) == Some(
                i as int,
            ),
            None => program_position(db@.programs, id@) is None,
        },
{
    let ghost all = db@.programs;
    let n: usize = db.programs.len();
    let mut i: usize = 0;
    assert(all.subrange(0, n as int) =~= all);
    while i < n
        invariant
            i <= n == db.programs.len(),
            all == db@.programs,
            program_position(all, id@) == match program_position(
                all.subrange(i as int, n as int),
                id@,
            ) {
                Some(k) => Some(k + i),
                None => None,
            },
        decreases n - i,
    {
        if db.programs[i].0 == *id {
            return Some(i);
        }
        assert(all.subrange(i as int, n as int).drop_first() =~= all.subrange(i + 1, n as int));
        i += 1;
    }
    None
}

/// The position of the first program whose name is `name`.
fn position_of_name(db: &ErrorDatabase, name: &String) -> (r: Option<usize>)
    ensures
        match r {
            Some(i) => i < db.programs.len() && find_program_named(db@.programs, name@) == Some(
                (db.programs[i as int].0@, db.programs[i as int].1@),
            ),
            None => find_program_named(db@.programs, name@) is None,
        },
{
    let ghost all = db@.programs;
    let n: usize = db.programs.len();
    let mut i: usize = 0;
    assert(all.subrange(0, n as int) =~= all);
    while i < n
        invariant
            i <= n == db.programs.len(),
            all == db@.programs,
            find_program_named(all.subrange(i as int, n as int), name@) == find_program_named(
                all,
                name@,
            ),
        decreases n - i,
    {
        if db.programs[i].1.name == *name {
            return Some(i);
        }
        assert(all.subrange(i as int, n as int).drop_first() =~= all.subrange(i + 1, n as int));
        i += 1;
    }
    None
}

/// The record of the known error `entry`, attributed to `program_id`.
fn record_of(program_id: &String, entry: &ErrorEntry) -> (r: DecodedError)
    ensures
        r@ == known_error(program_id@, entry@),
{
    DecodedError::new(entry.code).with_program(program_id.clone()).with_name(
        entry.name.clone(),
    ).with_message(entry.msg.clone())
}

/// The records of all of `errors`, attributed to `program_id`.
fn records_of(program_id: &String, errors: &Vec<ErrorEntry>) -> (r: Vec<DecodedError>)
    ensures
        error_views(r@) == known_errors(program_id@, entry_views(errors@)),
{
    let mut out: Vec<DecodedError> = Vec::new();
    let n: usize = errors.len();
    let mut i: usize = 0;
    while i < n
        invariant
            i <= n == errors.len(),
            out.len() == i,
            forall|j: int| 0 <= j < i ==> (#[trigger] out[j])@ == known_error(program_id@, errors[j]@),
        decreases n - i,
    {
        out.push(record_of(program_id, &errors[i]));
        i += 1;
    }
    assert(error_views(out@) =~= known_errors(program_id@, entry_views(errors@)));
    out
}

pub fn lookup_program_error(db: &ErrorDatabase, program_id: &str, code: u32) -> (r: Option<
    DecodedError,
>)
    ensures
        match r {
            Some(e) => program_error(db@, program_id@, code) == Some(e@),
            None => program_error(db@, program_id@, code) is None,
        },
{
    let id = String::from_str(program_id);
    match position_of_program(db, &id) {
        Some(p) => {
            let program = &db.programs[p].1;
            match position_of_code(&program.errors, code) {
                Some(i) => Some(record_of(&id, &program.errors[i])),
                None => None,
            }
        },
        None => None,
    }
}

pub fn lookup_anchor_error(db: &ErrorDatabase, code: u32) -> (r: Option<DecodedError>)
    ensures
        match r {
            Some(e) => anchor_error(db@, code) == Some(e@),
            None => anchor_error(db@, code) is None,
        },
{
    match position_of_code(&db.anchor_errors, code) {
        Some(i) => {
            let label = String::from_str("Anchor Framework");
            Some(record_of(&label, &db.anchor_errors[i]))
        },
        None => None,
    }
}

pub fn list_program_errors(db: &ErrorDatabase, program_id_or_name: &str) -> (r: Option<
    Vec<DecodedError>,
>)
    ensures
        match r {
            Some(errors) => program_errors(db@, program_id_or_name@) == Some(error_views(errors@)),
            None => program_errors(db@, program_id_or_name@) is None,
        },
{
    let key = String::from_str(program_id_or_name);
    match position_of_program(db, &key) {
        Some(p) => Some(records_of(&key, &db.programs[p].1.errors)),
        None => match position_of_name(db, &key) {
            Some(p) => Some(records_of(&db.programs[p].0, &db.programs[p].1.errors)),
            None => None,
        },
    }
}

pub fn get_program_name(db: &ErrorDatabase, program_id: &str) -> (r: Option<String>)
    ensures
        match r {
            Some(name) => program_name(db@, program_id@) == Some(name@),
            None => program_name(db@, program_id@) is None,
        },
{
    let id = String::from_str(program_id);
    match position_of_program(db, &id) {
        Some(p) => Some(db.programs[p].1.name.clone()),
        None => None,
    }
}

} // verus!
