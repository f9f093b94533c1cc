//! The persistence helper: one statement to the engine per operation.

use vstd::prelude::*;
use crate::entity::Entity;
use crate::reply::{
    executed, executed_outcome, fetched, fetched_outcome, fetched_result, inserted,
    inserted_outcome, listed, listed_outcome, listed_result, plain_result, Reply, StoreError,
};
use crate::statement::{
    create_table_model, delete_model, insert_model, select_all_model, select_by_id_model,
    update_model, Statement, StatementModel,
};

verus! {

/// The persistence helper. It owns the way to the storage engine: a function
/// that runs one statement and returns the engine's answer. Each operation
/// hands the engine exactly one statement and reads exactly its reply;
/// nothing is kept between calls.
pub struct SqliteManager<E: Fn(&Statement) -> Reply> {
    engine: E,
}

impl<E: Fn(&Statement) -> Reply> SqliteManager<E> {
    #[verifier::type_invariant]
    spec fn engine_accepts_every_statement(self) -> bool {
        forall|statement: &Statement| call_requires(self.engine, (statement,))
    }

    /// The engine that this helper drives.
    pub closed spec fn engine(&self) -> E {
        self.engine
    }

    /// Whether `reply` is an answer of the engine to a statement with the
    /// content `asked`.
    pub open spec fn answers(&self, asked: StatementModel, reply: Reply) -> bool {
        exists|statement: Statement|
            statement@ == asked && #[trigger] call_ensures(self.engine(), (&statement,), reply)
    }

    /// A helper that drives `engine`, which must take every statement.
    pub fn new(engine: E) -> (manager: Self)
        requires
            forall|statement: &Statement| call_requires(engine, (statement,)),
        ensures
            manager.engine() == engine,
    {
        SqliteManager { engine }
    }

    fn run(&self, statement: &Statement) -> (reply: Reply)
        ensures
            self.answers(statement@, reply),
    {
        proof {
            use_type_invariant(self);
        }
        let reply = (self.engine)(statement);
        assert(call_ensures(self.engine(), (statement,), reply));
        reply
    }

    /// Creates the table of `T` unless it exists.
    pub fn init_table<T: Entity>(&self) -> (result: Result<(), StoreError>)
        ensures
            exists|reply: Reply|
                #[trigger] self.answers(create_table_model(T::table(), T::columns()), reply)
                    && plain_result(result) == executed_outcome(reply@),
    {
        let statement = Statement::create_table::<T>();
        let reply = self.run(&statement);
        let ghost answer = reply;
        let result = executed(reply);
        assert(self.answers(create_table_model(T::table(), T::columns()), answer));
        result
    }

    /// Stores `entity` as a new row and returns the key that the store
    /// assigned. The key that `entity` holds is not used.
    pub fn insert<T: Entity>(&self, entity: &T) -> (result: Result<i64, StoreError>)
        ensures
            exists|reply: Reply|
                #[trigger] self.answers(
                    insert_model(T::table(), T::columns(), entity.fields()),
                    reply,
                ) && plain_result(result) == inserted_outcome(reply@),
    {
        let statement = Statement::insert(entity);
        let reply = self.run(&statement);
        let ghost answer = reply;
        let result = inserted(reply);
        assert(self.answers(insert_model(T::table(), T::columns(), entity.fields()), answer));
        result
    }

    /// Fetches the record with key `id`; `None` where the store holds none.
    pub fn get_by_id<T: Entity>(&self, id: i64) -> (result: Result<Option<T>, StoreError>)
        ensures
            exists|reply: Reply|
                #[trigger] self.answers(select_by_id_model(T::table(), T::columns(), id), reply)
                    && fetched_result(result) == fetched_outcome(reply@, T::columns()),
    {
        let statement = Statement::select_by_id::<T>(id);
        let reply = self.run(&statement);
        let ghost answer = reply;
        let result = fetched::<T>(reply);
        assert(self.answers(select_by_id_model(T::table(), T::columns(), id), answer));
        result
    }

    /// Replaces every field of the row whose key is that of `entity`. Where
    /// the store holds no such row, nothing changes and the call succeeds.
    pub fn update<T: Entity>(&self, entity: &T) -> (result: Result<(), StoreError>)
        ensures
            exists|reply: Reply|
                #[trigger] self.answers(
                    update_model(T::table(), T::columns(), entity.key(), entity.fields()),
                    reply,
                ) && plain_result(result) == executed_outcome(reply@),
    {
        let statement = Statement::update(entity);
        let reply = self.run(&statement);
        let ghost answer = reply;
        let result = executed(reply);
        assert(self.answers(
            update_model(T::table(), T::columns(), entity.key(), entity.fields()),
            answer,
        ));
        result
    }

    /// Removes the row with key `id`. Where the store holds no such row,
    /// nothing changes and the call succeeds.
    pub fn delete<T: Entity>(&self, id: i64) -> (result: Result<(), StoreError>)
        ensures
            exists|reply: Reply|
                #[trigger] self.answers(delete_model(T::table(), id), reply) && plain_result(
                    result,
                ) == executed_outcome(reply@),
    {
        let statement = Statement::delete::<T>(id);
        let reply = self.run(&statement);
        let ghost answer = reply;
        let result = executed(reply);
        assert(self.answers(delete_model(T::table(), id), answer));
        result
    }

    /// Fetches every record of the table of `T`, in the engine's order.
    pub fn list<T: Entity>(&self) -> (result: Result<Vec<T>, StoreError>)
        ensures
            exists|reply: Reply|
                #[trigger] self.answers(select_all_model(T::table(), T::columns()), reply)
                    && listed_result(result) == listed_outcome(reply@, T::columns()),
    {
        let statement = Statement::select_all::<T>();
        let reply = self.run(&statement);
        let ghost answer = reply;
        let result = listed::<T>(reply);
        assert(self.answers(select_all_model(T::table(), T::columns()), answer));
        result
    }
}

} // verus!
