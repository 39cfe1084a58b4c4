use vstd::prelude::*;
use vstd::string::StringExecFns;
use crate::codec::{DecodeError, DecodeFailure};
use crate::document::{DocValue, Document, Value};
use crate::identifier::{
    bytes_of_hex, hex_of, identifier_text, is_canonical, is_identifier, law_bytes_round_trip,
    parse_identifier,
};
use crate::mapping::{doc_from_recipe_request, doc_to_recipe, law_recipe_round_trip};
use crate::models::recipe::{Recipe, RecipeView};
use crate::models::recipe_request::{RecipeRequest, RecipeRequestView};

verus! {

/// Why an operation on the stored recipes came to nothing.
#[derive(Clone, Debug, PartialEq)]
pub enum RepositoryError {
    /// No record bears the identifier. The text is the identifier.
    NotFound(String),
    /// The text that was given cannot be read as an identifier of the store.
    InvalidIdentifier(String),
    /// The record that bears the identifier cannot be read as a recipe.
    Decode(DecodeError),
    /// The store could not be reached, or refused. The text is what it said.
    Store(String),
}

/// What a `RepositoryError` holds.
pub enum RepositoryFailure {
    NotFound(Seq<char>),
    InvalidIdentifier(Seq<char>),
    Decode(DecodeFailure),
    Store(Seq<char>),
}

impl View for RepositoryError {
    type V = RepositoryFailure;

    open spec fn view(&self) -> RepositoryFailure {
        match self {
            RepositoryError::NotFound(id) => RepositoryFailure::NotFound(id@),
            RepositoryError::InvalidIdentifier(id) => RepositoryFailure::InvalidIdentifier(id@),
            RepositoryError::Decode(e) => RepositoryFailure::Decode(e@),
            RepositoryError::Store(message) => RepositoryFailure::Store(message@),
        }
    }
}

impl RepositoryFailure {
    /// The failure as a read reports it: a text that is no identifier names
    /// no record, so a read of it finds none. Every other failure stays as
    /// it is.
    pub open spec fn on_read(self) -> RepositoryFailure {
        match self {
            RepositoryFailure::InvalidIdentifier(id) => RepositoryFailure::NotFound(id),
            other => other,
        }
    }
}

impl RepositoryError {
    /// The failure as a read reports it.
    pub fn on_read(self) -> (e: RepositoryError)
        ensures
            e@ == self@.on_read(),
    {
        match self {
            RepositoryError::InvalidIdentifier(id) => RepositoryError::NotFound(id),
            other => other,
        }
    }
}

/// What is asked of the store.
#[derive(Debug, PartialEq)]
pub enum StoreRequest {
    /// Every record.
    FindAll,
    /// The record that bears an identifier.
    FindOne([u8; 12]),
    /// To keep a new record, under an identifier that the store gives.
    InsertOne(Document),
    /// To put a record in the place of the one that bears an identifier:
    /// the whole of it, nothing of the old one kept but the identifier.
    ReplaceOne([u8; 12], Document),
    /// To drop the record that bears an identifier.
    DeleteOne([u8; 12]),
}

/// What a `StoreRequest` holds.
pub enum StoreRequestView {
    FindAll,
    FindOne(Seq<u8>),
    InsertOne(Seq<(Seq<char>, Value)>),
    ReplaceOne(Seq<u8>, Seq<(Seq<char>, Value)>),
    DeleteOne(Seq<u8>),
}

impl View for StoreRequest {
    type V = StoreRequestView;

    open spec fn view(&self) -> StoreRequestView {
        match self {
            StoreRequest::FindAll => StoreRequestView::FindAll,
            StoreRequest::FindOne(id) => StoreRequestView::FindOne(id@),
            StoreRequest::InsertOne(doc) => StoreRequestView::InsertOne(doc@),
            StoreRequest::ReplaceOne(id, doc) => StoreRequestView::ReplaceOne(id@, doc@),
            StoreRequest::DeleteOne(id) => StoreRequestView::DeleteOne(id@),
        }
    }
}

/// What the result of an operation holds.
pub open spec fn result_view<T: DeepView>(r: Result<T, RepositoryError>) -> Result<
    T::V,
    RepositoryFailure,
> {
    match r {
        Ok(x) => Ok(x.deep_view()),
        Err(e) => Err(e@),
    }
}

/// What the store handed over for one record: the record, or what the store
/// said when it failed on it.
pub open spec fn record_view(item: Result<Document, String>) -> Result<
    Seq<(Seq<char>, Value)>,
    Seq<char>,
> {
    match item {
        Ok(doc) => Ok(doc@),
        Err(message) => Err(message@),
    }
}

/// What the store handed over for a search, record by record.
pub open spec fn records_view(items: Seq<Result<Document, String>>) -> Seq<
    Result<Seq<(Seq<char>, Value)>, Seq<char>>,
> {
    Seq::new(items.len(), |i: int| record_view(items[i]))
}

/// What one record of a search comes to: the recipe that it reads as; the
/// failure to read it; or, where the store failed on it, what the store
/// said.
pub open spec fn taken(item: Result<Seq<(Seq<char>, Value)>, Seq<char>>) -> Result<
    RecipeView,
    RepositoryFailure,
> {
    match item {
        Err(message) => Err(RepositoryFailure::Store(message)),
        Ok(fields) => match RecipeView::read(fields) {
            Ok(recipe) => Ok(recipe),
            Err(e) => Err(RepositoryFailure::Decode(e)),
        },
    }
}

/// Whether every record of a search comes to a recipe.
pub open spec fn all_taken(items: Seq<Result<Seq<(Seq<char>, Value)>, Seq<char>>>) -> bool {
    forall|i: int| 0 <= i < items.len() ==> (#[trigger] taken(items[i])) is Ok
}

/// Whether the record at `i` is the first of a search that comes to no
/// recipe.
pub open spec fn first_refused(
    items: Seq<Result<Seq<(Seq<char>, Value)>, Seq<char>>>,
    i: int,
) -> bool {
    &&& 0 <= i < items.len()
    &&& taken(items[i]) is Err
    &&& forall|j: int| 0 <= j < i ==> (#[trigger] taken(items[j])) is Ok
}

/// What a search comes to: the recipes, each at the place of its record;
/// or, where a record comes to no recipe, the failure of the first such,
/// whatever comes after it. No record is passed over.
pub open spec fn taken_all(items: Seq<Result<Seq<(Seq<char>, Value)>, Seq<char>>>) -> Result<
    Seq<RecipeView>,
    RepositoryFailure,
> {
    if all_taken(items) {
        Ok(Seq::new(items.len(), |i: int| taken(items[i])->Ok_0))
    } else {
        let i = choose|i: int| first_refused(items, i);
        Err(taken(items[i])->Err_0)
    }
}

/// A search has one first record that comes to no recipe, if any does.
pub proof fn lemma_first_refused_unique(
    items: Seq<Result<Seq<(Seq<char>, Value)>, Seq<char>>>,
    i: int,
)
    requires
        first_refused(items, i),
    ensures
        !all_taken(items),
        taken_all(items) == Err::<Seq<RecipeView>, RepositoryFailure>(taken(items[i])->Err_0),
{
    let k = choose|k: int| first_refused(items, k);
    if k < i {
        assert(taken(items[k]) is Ok);
    }
    if i < k {
        assert(taken(items[i]) is Ok);
    }
}

/// What one record of a search comes to.
pub fn take_record(item: &Result<Document, String>) -> (r: Result<Recipe, RepositoryError>)
    ensures
        result_view(r) == taken(record_view(*item)),
{
    match item {
        Err(message) => Err(RepositoryError::Store(message.clone())),
        Ok(doc) => match doc_to_recipe(doc) {
            Ok(recipe) => Ok(recipe),
            Err(e) => Err(RepositoryError::Decode(e)),
        },
    }
}

/// What to ask of the store for every recipe.
pub fn fetch_recipes_request() -> (request: StoreRequest)
    ensures
        request@ == StoreRequestView::FindAll,
{
    StoreRequest::FindAll
}

/// What a search comes to, given what the store handed over for each record
/// in turn.
pub fn take_records(items: &Vec<Result<Document, String>>) -> (r: Result<
    Vec<Recipe>,
    RepositoryError,
>)
    ensures
        result_view(r) == taken_all(records_view(items@)),
{
    let ghost records = records_view(items@);
    let mut result: Vec<Recipe> = Vec::new();
    let mut i: usize = 0;
    while i < items.len()
        invariant
            i <= items.len(),
            records == records_view(items@),
            result@.len() == i,
            forall|j: int|
                0 <= j < i ==> (#[trigger] taken(records[j])) == Ok::<RecipeView, RepositoryFailure>(
                    result@[j]@,
                ),
        decreases items.len() - i,
    {
        match take_record(&items[i]) {
            Ok(recipe) => {
                result.push(recipe);
            },
            Err(e) => {
                proof {
                    assert(records[i as int] == record_view(items@[i as int]));
                    assert(first_refused(records, i as int));
                    lemma_first_refused_unique(records, i as int);
                }
                return Err(e);
            },
        }
        i += 1;
    }
    proof {
        assert(all_taken(records));
        assert(taken_all(records)->Ok_0 =~= result.deep_view());
    }
    Ok(result)
}

/// What fetching every recipe comes to, given what the store answered: what
/// it said when it failed to start the search, or what it handed over for
/// each record in turn.
pub fn fetch_recipes_outcome(reply: Result<Vec<Result<Document, String>>, String>) -> (r: Result<
    Vec<Recipe>,
    RepositoryError,
>)
    ensures
        result_view(r) == match reply {
            Err(message) => Err::<Seq<RecipeView>, RepositoryFailure>(
                RepositoryFailure::Store(message@),
            ),
            Ok(items) => taken_all(records_view(items@)),
        },
{
    match reply {
        Err(message) => Err(RepositoryError::Store(message)),
        Ok(items) => take_records(&items),
    }
}

/// What to ask of the store for the recipe that `id` names. A text that
/// cannot be read as an identifier is refused, and the store is not asked.
pub fn fetch_recipe_request(id: &str) -> (r: Result<StoreRequest, RepositoryError>)
    ensures
        r matches Ok(request) ==> is_identifier(id@) && request@ == StoreRequestView::FindOne(
            bytes_of_hex(id@),
        ),
        r matches Err(e) ==> !is_identifier(id@) && e@ == RepositoryFailure::InvalidIdentifier(id@),
{
    match parse_identifier(id) {
        Some(oid) => Ok(StoreRequest::FindOne(oid)),
        None => Err(RepositoryError::InvalidIdentifier(String::from_str(id))),
    }
}

/// What fetching the recipe that `id` names comes to, given what the store
/// answered: the record it found, if any, or what it said when it failed.
pub fn fetch_recipe_outcome(id: &str, reply: Result<Option<Document>, String>) -> (r: Result<
    Recipe,
    RepositoryError,
>)
    ensures
        result_view(r) == match reply {
            Err(message) => Err::<RecipeView, RepositoryFailure>(RepositoryFailure::Store(message@)),
            Ok(None) => Err(RepositoryFailure::NotFound(id@)),
            Ok(Some(doc)) => match RecipeView::read(doc@) {
                Ok(recipe) => Ok(recipe),
                Err(e) => Err(RepositoryFailure::Decode(e)),
            },
        },
{
    match reply {
        Err(message) => Err(RepositoryError::Store(message)),
        Ok(None) => Err(RepositoryError::NotFound(String::from_str(id))),
        Ok(Some(doc)) => match doc_to_recipe(&doc) {
            Ok(recipe) => Ok(recipe),
            Err(e) => Err(RepositoryError::Decode(e)),
        },
    }
}

/// What to ask of the store to keep a new recipe: the whole request, written
/// as a record.
pub fn create_recipe_request(entry: &RecipeRequest) -> (request: StoreRequest)
    ensures
        request@ == StoreRequestView::InsertOne(entry@.fields()),
{
    StoreRequest::InsertOne(doc_from_recipe_request(entry))
}

/// What keeping a new recipe comes to, given what the store answered: what
/// it put under `_id` in the new record, or what it said when it failed. An
/// answer that holds no identifier of the store counts as a failure of the
/// store.
pub fn create_recipe_outcome(reply: Result<DocValue, String>) -> (r: Result<String, RepositoryError>)
    ensures
        result_view(r) == match reply {
            Err(message) => Err::<Seq<char>, RepositoryFailure>(RepositoryFailure::Store(message@)),
            Ok(DocValue::ObjectId(oid)) => Ok(hex_of(oid@)),
            Ok(_) => Err(RepositoryFailure::Store("_id is not an ObjectId!"@)),
        },
        r matches Ok(recipe_uuid) ==> is_canonical(recipe_uuid@),
{
    match reply {
        Err(message) => Err(RepositoryError::Store(message)),
        Ok(DocValue::ObjectId(oid)) => Ok(identifier_text(&oid)),
        Ok(_) => Err(RepositoryError::Store(String::from_str("_id is not an ObjectId!"))),
    }
}

/// What to ask of the store to change the recipe that `id` names: to put the
/// whole request in its place. A text that cannot be read as an identifier
/// is refused.
pub fn edit_recipe_request(id: &str, entry: &RecipeRequest) -> (r: Result<
    StoreRequest,
    RepositoryError,
>)
    ensures
        r matches Ok(request) ==> is_identifier(id@) && request@ == StoreRequestView::ReplaceOne(
            bytes_of_hex(id@),
            entry@.fields(),
        ),
        r matches Err(e) ==> !is_identifier(id@) && e@ == RepositoryFailure::InvalidIdentifier(id@),
{
    match parse_identifier(id) {
        Some(oid) => Ok(StoreRequest::ReplaceOne(oid, doc_from_recipe_request(entry))),
        None => Err(RepositoryError::InvalidIdentifier(String::from_str(id))),
    }
}

/// What changing the recipe that `id` names comes to, given what the store
/// answered: the number of records it found under the identifier, or what it
/// said when it failed.
pub fn edit_recipe_outcome(id: &str, reply: Result<u64, String>) -> (r: Result<(), RepositoryError>)
    ensures
        result_view(r) == match reply {
            Err(message) => Err::<(), RepositoryFailure>(RepositoryFailure::Store(message@)),
            Ok(matched) => if matched == 0 {
                Err(RepositoryFailure::NotFound(id@))
            } else {
                Ok(())
            },
        },
{
    match reply {
        Err(message) => Err(RepositoryError::Store(message)),
        Ok(matched) => if matched == 0 {
            Err(RepositoryError::NotFound(String::from_str(id)))
        } else {
            Ok(())
        },
    }
}

/// What to ask of the store to drop the recipe that `id` names. A text that
/// cannot be read as an identifier is refused.
pub fn delete_recipe_request(id: &str) -> (r: Result<StoreRequest, RepositoryError>)
    ensures
        r matches Ok(request) ==> is_identifier(id@) && request@ == StoreRequestView::DeleteOne(
            bytes_of_hex(id@),
        ),
        r matches Err(e) ==> !is_identifier(id@) && e@ == RepositoryFailure::InvalidIdentifier(id@),
{
    match parse_identifier(id) {
        Some(oid) => Ok(StoreRequest::DeleteOne(oid)),
        None => Err(RepositoryError::InvalidIdentifier(String::from_str(id))),
    }
}

/// What dropping the recipe that `id` names comes to, given what the store
/// answered: the number of records it dropped, or what it said when it
/// failed.
pub fn delete_recipe_outcome(id: &str, reply: Result<u64, String>) -> (r: Result<
    (),
    RepositoryError,
>)
    ensures
        result_view(r) == match reply {
            Err(message) => Err::<(), RepositoryFailure>(RepositoryFailure::Store(message@)),
            Ok(deleted) => if deleted == 0 {
                Err(RepositoryFailure::NotFound(id@))
            } else {
                Ok(())
            },
        },
{
    match reply {
        Err(message) => Err(RepositoryError::Store(message)),
        Ok(deleted) => if deleted == 0 {
            Err(RepositoryError::NotFound(String::from_str(id)))
        } else {
            Ok(())
        },
    }
}

/// The record that the store holds once it has kept a request, or put it in
/// the place of another, under an identifier.
pub open spec fn stored(oid: Seq<u8>, request: RecipeRequestView) -> Seq<(Seq<char>, Value)> {
    seq![("_id"@, Value::ObjectId(oid))] + request.fields()
}

/// A request that the store has kept under an identifier is fetched as the
/// recipe that holds what the request held, known by that identifier as a
/// text. What the request left out is left out of the recipe, whatever the
/// record held before.
pub proof fn law_stored_request_is_fetched(oid: Seq<u8>, request: RecipeRequestView)
    requires
        oid.len() == 12,
    ensures
        RecipeView::read(stored(oid, request)) == Ok::<RecipeView, DecodeFailure>(
            RecipeView::of_request(hex_of(oid), request),
        ),
{
    let recipe = RecipeView::of_request(hex_of(oid), request);
    law_bytes_round_trip(oid);
    assert(recipe.request() == request);
    law_recipe_round_trip(recipe);
}

} // verus!
