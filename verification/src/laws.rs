use vstd::prelude::*;
use crate::codec::{
    decoded_list, law_list_fails_whole, law_list_keeps_places, optional_field, Codec, DecodeFailure,
};
use crate::document::{distinct_keys, held, lemma_lookup_found, lemma_lookup_missing, lookup, Value};
use crate::identifier::bytes_of_hex;
use crate::mapping::{lemma_recipe_fields, lemma_recipe_names, lemma_request_fields};
use crate::models::book_source::{BookSource, BookSourceView};
use crate::models::ingredient::{Amount, AmountView, IngredientDataView};
use crate::models::recipe::RecipeView;
use crate::models::recipe_request::RecipeRequestView;
use crate::models::step::{Step, StepView};
use crate::models::yields::YieldView;

verus! {

/// A field that may be left out and is left out, or holds the marker for "no
/// value", reads as no value.
pub proof fn law_absent_field_reads_as_none<T: Codec>(fields: Seq<(Seq<char>, Value)>, key: Seq<char>)
    requires
        lookup(fields, key) is None || lookup(fields, key) == Some(Value::Null),
    ensures
        optional_field::<T>(fields, key) == Ok::<Option<T::V>, DecodeFailure>(None),
{
}

/// Whatever a request leaves out of a record that reads as a request, the
/// request has no value for.
pub proof fn law_request_absent_fields(fields: Seq<(Seq<char>, Value)>, x: RecipeRequestView)
    requires
        RecipeRequestView::read(fields) == Ok::<RecipeRequestView, DecodeFailure>(x),
    ensures
        held(fields, "recipe_name"@) is None ==> x.recipe_name is None,
        held(fields, "oven_time"@) is None ==> x.oven_time is None,
        held(fields, "notes"@) is None ==> x.notes is None,
        held(fields, "oven_fan"@) is None ==> x.oven_fan is None,
        held(fields, "oven_temp"@) is None ==> x.oven_temp is None,
        held(fields, "source_book"@) is None ==> x.source_book is None,
        held(fields, "source_authors"@) is None ==> x.source_authors is None,
        held(fields, "source_url"@) is None ==> x.source_url is None,
        held(fields, "ingredients"@) is None ==> x.ingredients is None,
        held(fields, "steps"@) is None ==> x.steps is None,
        held(fields, "yields"@) is None ==> x.yields is None,
{
}

/// Whatever a record that reads as a recipe leaves out, besides its
/// identifier, the recipe has no value for.
pub proof fn law_recipe_absent_fields(fields: Seq<(Seq<char>, Value)>, x: RecipeView)
    requires
        RecipeView::read(fields) == Ok::<RecipeView, DecodeFailure>(x),
    ensures
        held(fields, "recipe_name"@) is None ==> x.recipe_name is None,
        held(fields, "oven_time"@) is None ==> x.oven_time is None,
        held(fields, "notes"@) is None ==> x.notes is None,
        held(fields, "oven_fan"@) is None ==> x.oven_fan is None,
        held(fields, "oven_temp"@) is None ==> x.oven_temp is None,
        held(fields, "source_book"@) is None ==> x.source_book is None,
        held(fields, "source_authors"@) is None ==> x.source_authors is None,
        held(fields, "source_url"@) is None ==> x.source_url is None,
        held(fields, "ingredients"@) is None ==> x.ingredients is None,
        held(fields, "steps"@) is None ==> x.steps is None,
        held(fields, "yields"@) is None ==> x.yields is None,
{
    law_request_absent_fields(fields, x.request());
}

/// The record without fields reads as the request that says nothing.
pub proof fn law_empty_record_reads_as_empty_request()
    ensures
        RecipeRequestView::read(Seq::empty()) == Ok::<RecipeRequestView, DecodeFailure>(
            RecipeRequestView::empty(),
        ),
{
    let fields = Seq::<(Seq<char>, Value)>::empty();
    assert forall|key: Seq<char>| lookup(fields, key) is None by {
        lemma_lookup_missing(fields, key);
    }
}

/// What a step, a book or an entry for an ingredient leaves out of the
/// fields that it may leave out, it has no value for.
pub proof fn law_nested_absent_fields(fields: Seq<(Seq<char>, Value)>)
    ensures
        held(fields, "haccp"@) is None ==> (StepView::read(fields) matches Ok(s) ==> s.haccp is None),
        held(fields, "notes"@) is None ==> (StepView::read(fields) matches Ok(s) ==> s.notes is None),
        held(fields, "isbn"@) is None ==> (BookSourceView::read(fields) matches Ok(b) ==> b.isbn
            is None),
        held(fields, "notes"@) is None ==> (BookSourceView::read(fields) matches Ok(b) ==> b.notes
            is None),
        held(fields, "notes"@) is None ==> (IngredientDataView::read(fields) matches Ok(d)
            ==> d.notes is None),
{
}

/// A request is written with every one of its fields; where it has no
/// value, the field is there and holds the marker for "no value".
pub proof fn law_request_writes_every_field(x: RecipeRequestView)
    ensures
        lookup(x.fields(), "recipe_name"@) is Some,
        lookup(x.fields(), "oven_time"@) is Some,
        lookup(x.fields(), "notes"@) is Some,
        lookup(x.fields(), "oven_fan"@) is Some,
        lookup(x.fields(), "oven_temp"@) is Some,
        lookup(x.fields(), "source_book"@) is Some,
        lookup(x.fields(), "source_authors"@) is Some,
        lookup(x.fields(), "source_url"@) is Some,
        lookup(x.fields(), "ingredients"@) is Some,
        lookup(x.fields(), "steps"@) is Some,
        lookup(x.fields(), "yields"@) is Some,
        x.recipe_name is None ==> lookup(x.fields(), "recipe_name"@) == Some(Value::Null),
        x.oven_time is None ==> lookup(x.fields(), "oven_time"@) == Some(Value::Null),
        x.notes is None ==> lookup(x.fields(), "notes"@) == Some(Value::Null),
        x.oven_fan is None ==> lookup(x.fields(), "oven_fan"@) == Some(Value::Null),
        x.oven_temp is None ==> lookup(x.fields(), "oven_temp"@) == Some(Value::Null),
        x.source_book is None ==> lookup(x.fields(), "source_book"@) == Some(Value::Null),
        x.source_authors is None ==> lookup(x.fields(), "source_authors"@) == Some(Value::Null),
        x.source_url is None ==> lookup(x.fields(), "source_url"@) == Some(Value::Null),
        x.ingredients is None ==> lookup(x.fields(), "ingredients"@) == Some(Value::Null),
        x.steps is None ==> lookup(x.fields(), "steps"@) == Some(Value::Null),
        x.yields is None ==> lookup(x.fields(), "yields"@) == Some(Value::Null),
{
    lemma_request_fields(x);
}

/// No name stands twice in the record that a request or a recipe is written
/// as: the first field of a name is its only one.
pub proof fn law_written_names_are_distinct(request: RecipeRequestView, recipe: RecipeView)
    ensures
        distinct_keys(request.fields()),
        distinct_keys(recipe.fields()),
{
    lemma_recipe_names();
    lemma_request_fields(request);
    let all = recipe.fields();
    let rest = recipe.request().fields();
    assert(rest.len() == 11);
    assert(all.len() == 12);
    assert(all[0].0 == "_id"@);
    assert forall|i: int| 1 <= i < 12 implies #[trigger] all[i] == rest[i - 1] by {}
    assert(all[1].0 == "recipe_name"@);
    assert(all[2].0 == "oven_time"@);
    assert(all[3].0 == "notes"@);
    assert(all[4].0 == "oven_fan"@);
    assert(all[5].0 == "oven_temp"@);
    assert(all[6].0 == "source_book"@);
    assert(all[7].0 == "source_authors"@);
    assert(all[8].0 == "source_url"@);
    assert(all[9].0 == "ingredients"@);
    assert(all[10].0 == "steps"@);
    assert(all[11].0 == "yields"@);
}

/// A recipe is written with its identifier and every field of a request;
/// where it has no value, the field is there and holds the marker for "no
/// value".
pub proof fn law_recipe_writes_every_field(x: RecipeView)
    ensures
        lookup(x.fields(), "_id"@) == Some(Value::ObjectId(bytes_of_hex(x.recipe_uuid))),
        x.recipe_name is None ==> lookup(x.fields(), "recipe_name"@) == Some(Value::Null),
        x.oven_time is None ==> lookup(x.fields(), "oven_time"@) == Some(Value::Null),
        x.notes is None ==> lookup(x.fields(), "notes"@) == Some(Value::Null),
        x.oven_fan is None ==> lookup(x.fields(), "oven_fan"@) == Some(Value::Null),
        x.oven_temp is None ==> lookup(x.fields(), "oven_temp"@) == Some(Value::Null),
        x.source_book is None ==> lookup(x.fields(), "source_book"@) == Some(Value::Null),
        x.source_authors is None ==> lookup(x.fields(), "source_authors"@) == Some(Value::Null),
        x.source_url is None ==> lookup(x.fields(), "source_url"@) == Some(Value::Null),
        x.ingredients is None ==> lookup(x.fields(), "ingredients"@) == Some(Value::Null),
        x.steps is None ==> lookup(x.fields(), "steps"@) == Some(Value::Null),
        x.yields is None ==> lookup(x.fields(), "yields"@) == Some(Value::Null),
{
    lemma_recipe_fields(x);
    law_request_writes_every_field(x.request());
}

/// A step, a book and an entry for an ingredient are written with the
/// fields that they may leave out; where they have no value, the field holds
/// the marker for "no value".
pub proof fn law_nested_missing_values_are_marked(s: StepView, b: BookSourceView, d: IngredientDataView)
    ensures
        s.haccp is None ==> lookup(s.fields(), "haccp"@) == Some(Value::Null),
        s.notes is None ==> lookup(s.fields(), "notes"@) == Some(Value::Null),
        b.isbn is None ==> lookup(b.fields(), "isbn"@) == Some(Value::Null),
        b.notes is None ==> lookup(b.fields(), "notes"@) == Some(Value::Null),
        d.notes is None ==> lookup(d.fields(), "notes"@) == Some(Value::Null),
{
    reveal_strlit("step");
    reveal_strlit("haccp");
    reveal_strlit("notes");
    reveal_strlit("authors");
    reveal_strlit("title");
    reveal_strlit("isbn");
    reveal_strlit("amounts");
    reveal_strlit("processing");
    reveal_strlit("ingredient_name");
    assert("haccp"@[0] != "notes"@[0]);
    assert("title"@[0] != "notes"@[0]);
    let sf = s.fields();
    assert(sf.len() == 3 && sf[0].0 == "step"@ && sf[1].0 == "haccp"@ && sf[2].0 == "notes"@);
    lemma_lookup_found(sf, "haccp"@, 1);
    lemma_lookup_found(sf, "notes"@, 2);
    let bf = b.fields();
    assert(bf.len() == 4 && bf[0].0 == "authors"@ && bf[1].0 == "title"@ && bf[2].0 == "isbn"@
        && bf[3].0 == "notes"@);
    lemma_lookup_found(bf, "isbn"@, 2);
    lemma_lookup_found(bf, "notes"@, 3);
    let df = d.fields();
    assert(df.len() == 4 && df[0].0 == "amounts"@ && df[1].0 == "processing"@ && df[2].0
        == "notes"@);
    lemma_lookup_found(df, "notes"@, 2);
}

/// A record without the field that it cannot do without does not read as a
/// value, whatever else it holds: a step without its instruction, a book
/// without its title, an amount or a yield without its unit, a recipe
/// without its identifier. The failure names the field; nothing stands in
/// for what is missing.
pub proof fn law_required_field_missing(fields: Seq<(Seq<char>, Value)>)
    ensures
        held(fields, "step"@) is None ==> StepView::read(fields) == Err::<StepView, DecodeFailure>(
            DecodeFailure::MissingRequiredField("step"@),
        ),
        held(fields, "title"@) is None ==> BookSourceView::read(fields) == Err::<
            BookSourceView,
            DecodeFailure,
        >(DecodeFailure::MissingRequiredField("title"@)),
        held(fields, "unit"@) is None ==> AmountView::read(fields) == Err::<AmountView, DecodeFailure>(
            DecodeFailure::MissingRequiredField("unit"@),
        ),
        held(fields, "unit"@) is None ==> YieldView::read(fields) == Err::<YieldView, DecodeFailure>(
            DecodeFailure::MissingRequiredField("unit"@),
        ),
        held(fields, "_id"@) is None ==> RecipeView::read(fields) == Err::<RecipeView, DecodeFailure>(
            DecodeFailure::MissingRequiredField("_id"@),
        ),
{
}

/// A recipe one of whose steps lacks its instruction does not read as a
/// recipe, and neither does it as a request.
pub proof fn law_step_without_instruction_fails_recipe(
    fields: Seq<(Seq<char>, Value)>,
    steps: Seq<Value>,
    i: int,
    step: Seq<(Seq<char>, Value)>,
)
    requires
        held(fields, "steps"@) == Some(Value::Array(steps)),
        0 <= i < steps.len(),
        steps[i] == Value::Document(step),
        held(step, "step"@) is None,
    ensures
        <Step as Codec>::decoded(steps[i], "steps"@) == Err::<StepView, DecodeFailure>(
            DecodeFailure::MissingRequiredField("step"@),
        ),
        RecipeRequestView::read(fields) is Err,
        RecipeView::read(fields) is Err,
{
    law_list_fails_whole::<Step>(steps, "steps"@, i);
}

/// A recipe whose book lacks its title does not read as a recipe, and
/// neither does it as a request.
pub proof fn law_book_without_title_fails_recipe(
    fields: Seq<(Seq<char>, Value)>,
    book: Seq<(Seq<char>, Value)>,
)
    requires
        held(fields, "source_book"@) == Some(Value::Document(book)),
        held(book, "title"@) is None,
    ensures
        <BookSource as Codec>::decoded(Value::Document(book), "source_book"@) == Err::<
            BookSourceView,
            DecodeFailure,
        >(DecodeFailure::MissingRequiredField("title"@)),
        RecipeRequestView::read(fields) is Err,
        RecipeView::read(fields) is Err,
{
}

/// The amounts of an entry that was read are those of the record, one for
/// one and each at its place: the first amount stays the first, and each
/// quantity stays with its unit.
pub proof fn law_amounts_keep_places(
    fields: Seq<(Seq<char>, Value)>,
    amounts: Seq<Value>,
    x: IngredientDataView,
)
    requires
        held(fields, "amounts"@) == Some(Value::Array(amounts)),
        IngredientDataView::read(fields) == Ok::<IngredientDataView, DecodeFailure>(x),
    ensures
        x.amounts.len() == amounts.len(),
        forall|i: int|
            0 <= i < amounts.len() ==> <Amount as Codec>::decoded(#[trigger] amounts[i], "amounts"@)
                == Ok::<AmountView, DecodeFailure>(x.amounts[i]),
{
    law_list_keeps_places::<Amount>(amounts, "amounts"@, x.amounts);
}

/// Two lists of which one has, at some place, an item that reads as another
/// value than the item of the other at that place, do not read as the same
/// list: the order of a list is part of what it says.
pub proof fn law_order_is_kept<T: Codec>(
    items: Seq<Value>,
    others: Seq<Value>,
    field: Seq<char>,
    i: int,
)
    requires
        0 <= i < items.len(),
        0 <= i < others.len(),
        decoded_list::<T>(items, field) is Ok,
        decoded_list::<T>(others, field) is Ok,
        T::decoded(items[i], field) != T::decoded(others[i], field),
    ensures
        decoded_list::<T>(items, field) != decoded_list::<T>(others, field),
{
    let xs = decoded_list::<T>(items, field)->Ok_0;
    let ys = decoded_list::<T>(others, field)->Ok_0;
    law_list_keeps_places::<T>(items, field, xs);
    law_list_keeps_places::<T>(others, field, ys);
    if xs == ys {
        assert(T::decoded(items[i], field) == Ok::<T::V, DecodeFailure>(xs[i]));
        assert(T::decoded(others[i], field) == Ok::<T::V, DecodeFailure>(ys[i]));
    }
}

} // verus!
