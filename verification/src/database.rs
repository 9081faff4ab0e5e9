//! The registries and what can go wrong in them.

use crate::database::players::{PlayerCollection, PlayerEntryView};
use crate::database::tournaments::{TournamentCollection, TournamentEntryView};
use crate::tetrio::TetrioApiError;
use vstd::prelude::*;

pub mod players;
pub mod tournaments;

verus! {

/// Something that went wrong in a registry, or in the store behind it.
#[derive(Debug, PartialEq, Eq)]
pub enum DatabaseError {
    /// The store could not be reached.
    ConnectionFailed,
    /// No record answers to what was asked for.
    NotFound,
    /// The store refused a write.
    CouldNotPush,
    /// The game account is linked to another chat account.
    DuplicateTetrioEntry,
    /// The chat account is linked to another game account.
    DuplicateDiscordEntry,
    /// A stored document could not be read as a record.
    CouldNotParse(String),
    /// The record holds no link that could be removed.
    FieldNotSet,
    /// The data service failed or does not know the account.
    TetrioApiError(TetrioApiError),
    /// The chat account is linked to this very game account.
    AlreadyLinked,
    /// A tournament of that name or shorthand exists.
    DuplicateName,
}

/// The mathematical content of a [`DatabaseError`].
pub enum DatabaseErrorView {
    ConnectionFailed,
    NotFound,
    CouldNotPush,
    DuplicateTetrioEntry,
    DuplicateDiscordEntry,
    CouldNotParse(Seq<char>),
    FieldNotSet,
    TetrioApiError(Seq<char>),
    AlreadyLinked,
    DuplicateName,
}

impl View for DatabaseError {
    type V = DatabaseErrorView;

    open spec fn view(&self) -> DatabaseErrorView {
        match self {
            DatabaseError::ConnectionFailed => DatabaseErrorView::ConnectionFailed,
            DatabaseError::NotFound => DatabaseErrorView::NotFound,
            DatabaseError::CouldNotPush => DatabaseErrorView::CouldNotPush,
            DatabaseError::DuplicateTetrioEntry => DatabaseErrorView::DuplicateTetrioEntry,
            DatabaseError::DuplicateDiscordEntry => DatabaseErrorView::DuplicateDiscordEntry,
            DatabaseError::CouldNotParse(what) => DatabaseErrorView::CouldNotParse(what@),
            DatabaseError::FieldNotSet => DatabaseErrorView::FieldNotSet,
            DatabaseError::TetrioApiError(error) => DatabaseErrorView::TetrioApiError(error@),
            DatabaseError::AlreadyLinked => DatabaseErrorView::AlreadyLinked,
            DatabaseError::DuplicateName => DatabaseErrorView::DuplicateName,
        }
    }
}

impl DatabaseErrorView {
    /// A short description of the kind of error.
    pub open spec fn description(self) -> Seq<char> {
        match self {
            DatabaseErrorView::ConnectionFailed => "Connection to database failed"@,
            DatabaseErrorView::NotFound => "Could not find item"@,
            DatabaseErrorView::CouldNotPush => "Could not push to database"@,
            DatabaseErrorView::DuplicateTetrioEntry => "Tetrio user already exists"@,
            DatabaseErrorView::DuplicateDiscordEntry => "Discord user already exists"@,
            DatabaseErrorView::CouldNotParse(_) => "Could not parse document to entry"@,
            DatabaseErrorView::FieldNotSet => "A specific field was not set"@,
            DatabaseErrorView::TetrioApiError(_) =>
                "Something happened while requesting data from the Tetrio API"@,
            DatabaseErrorView::AlreadyLinked =>
                "User is trying to link user that's already linked to them"@,
            DatabaseErrorView::DuplicateName => "Tournament name or shorthand already exists"@,
        }
    }
}

impl DatabaseError {
    /// A short description of the kind of error, without what it carries.
    pub fn description(&self) -> (r: &'static str)
        ensures
            r@ == self@.description(),
    {
        match self {
            DatabaseError::ConnectionFailed => "Connection to database failed",
            DatabaseError::NotFound => "Could not find item",
            DatabaseError::CouldNotPush => "Could not push to database",
            DatabaseError::DuplicateTetrioEntry => "Tetrio user already exists",
            DatabaseError::DuplicateDiscordEntry => "Discord user already exists",
            DatabaseError::CouldNotParse(_) => "Could not parse document to entry",
            DatabaseError::FieldNotSet => "A specific field was not set",
            DatabaseError::TetrioApiError(_) =>
                "Something happened while requesting data from the Tetrio API",
            DatabaseError::AlreadyLinked =>
                "User is trying to link user that's already linked to them",
            DatabaseError::DuplicateName => "Tournament name or shorthand already exists",
        }
    }
}

/// The result of a registry operation.
pub type DatabaseResult<T> = Result<T, DatabaseError>;

/// Both registries together.
pub struct LocalDatabase {
    /// The player registry.
    pub players: PlayerCollection,
    /// The tournament registry.
    pub tournaments: TournamentCollection,
}

impl LocalDatabase {
    /// Whether both registries are in a valid state.
    pub open spec fn wf(&self) -> bool {
        self.players.wf() && self.tournaments.wf()
    }

    /// Two registries without records.
    pub fn new() -> (r: LocalDatabase)
        ensures
            r.wf(),
            r.players@ == Seq::<PlayerEntryView>::empty(),
            r.tournaments@ == Seq::<TournamentEntryView>::empty(),
    {
        LocalDatabase { players: PlayerCollection::new(), tournaments: TournamentCollection::new() }
    }
}

} // verus!
