use vstd::prelude::*;
use vstd::string::StringExecFns;
use crate::codec::{
    defaulted, defaulted_field, encode_option, encoded_option, lemma_defaulted_reads_back,
    lemma_optional_reads_back, lemma_required_reads_back, optional, optional_field, required,
    required_field, Codec, DecodeError, DecodeFailure, ExpectedKind,
};
use crate::codec::{held_value, outcome};
use crate::document::{
    distinct_keys, held, lemma_lookup_behind, lemma_lookup_found, lookup, DocValue, Document, Value,
};
use crate::identifier::{
    bytes_of_hex, hex_of, identifier_text, is_canonical, is_identifier, law_canonical_round_trip,
    parse_identifier,
};
use crate::models::oven_fan_value::OvenFanValue;
use crate::models::recipe::{Recipe, RecipeView};
use crate::models::recipe_request::{RecipeRequest, RecipeRequestView};
use crate::models::book_source::{BookSource, BookSourceView};
use crate::models::haccp_value::{HACCPValue, HACCPValueView};
use crate::models::ingredient::{
    Amount, AmountView, Ingredient, IngredientData, IngredientDataView, IngredientView,
};
use crate::models::step::{Step, StepView};
use crate::models::temperature::{Temperature, TemperatureView};
use crate::models::temperature_unit::TemperatureUnit;
use crate::models::yields::{Yield, YieldView};
use crate::quantity::Quantity;

verus! {

impl AmountView {
    /// The fields under which an amount is stored, in their order.
    pub open spec fn fields(self) -> Seq<(Seq<char>, Value)> {
        seq![
            ("amount"@, <Quantity as Codec>::encoded(self.amount)),
            ("unit"@, <String as Codec>::encoded(self.unit)),
        ]
    }

    /// What a record reads as when it is taken for an amount.
    /// The unit must be there; a quantity that is left out is zero.
    pub open spec fn read(fields: Seq<(Seq<char>, Value)>) -> Result<AmountView, DecodeFailure> {
        let unit = required_field::<String>(fields, "unit"@);
        let amount = defaulted_field::<Quantity>(fields, "amount"@, Quantity::zero_value());
        if unit is Err {
            Err(unit->Err_0)
        } else if amount is Err {
            Err(amount->Err_0)
        } else {
            Ok(
                AmountView {
                    amount: amount->Ok_0,
                    unit: unit->Ok_0,
                },
            )
        }
    }
}

impl Codec for Amount {
    open spec fn encoded(x: AmountView) -> Value {
        Value::Document(x.fields())
    }

    open spec fn decoded(v: Value, field: Seq<char>) -> Result<AmountView, DecodeFailure> {
        match v {
            Value::Document(fields) => AmountView::read(fields),
            _ => Err(DecodeFailure::TypeMismatch(field, ExpectedKind::Document)),
        }
    }

    fn encode(&self) -> (d: DocValue)
        ensures
            d@ == Value::Document(self@.fields()),
    {
        let doc = Document::new()
            .with("amount", self.amount.encode())
            .with("unit", self.unit.encode());
        proof {
            DocValue::lemma_document_model(doc);
            assert(doc@ =~= self@.fields());
        }
        DocValue::Document(doc)
    }

    fn decode(d: &DocValue, field: &str) -> (r: Result<Amount, DecodeError>)
        ensures
            outcome(r) == <Amount as Codec>::decoded(d@, field@),
    {
        match d {
            DocValue::Document(doc) => {
                proof {
                    DocValue::lemma_document_model(*doc);
                }
                let unit = required::<String>(doc, "unit")?;
                let amount = defaulted::<Quantity>(doc, "amount", Quantity::zero())?;
                Ok(Amount { amount, unit })
            },
            _ => Err(DecodeError::TypeMismatch(String::from_str(field), ExpectedKind::Document)),
        }
    }

    proof fn law_round_trip(x: AmountView, field: Seq<char>)
        ensures
            AmountView::read(x.fields()) == Ok::<AmountView, DecodeFailure>(x),
    {
        let fields = x.fields();
        reveal_strlit("amount");
        reveal_strlit("unit");
        assert(fields.len() == 2);
        assert(fields[0].0 == "amount"@);
        assert(fields[1].0 == "unit"@);
        lemma_lookup_found(fields, "amount"@, 0);
        lemma_lookup_found(fields, "unit"@, 1);
        lemma_defaulted_reads_back::<Quantity>(fields, "amount"@, x.amount, Quantity::zero_value());
        lemma_required_reads_back::<String>(fields, "unit"@, x.unit);
    }
}

impl YieldView {
    /// The fields under which a yield is stored, in their order.
    pub open spec fn fields(self) -> Seq<(Seq<char>, Value)> {
        seq![
            ("amount"@, <Quantity as Codec>::encoded(self.amount)),
            ("unit"@, <String as Codec>::encoded(self.unit)),
        ]
    }

    /// What a record reads as when it is taken for a yield.
    /// The unit must be there; an amount that is left out is zero.
    pub open spec fn read(fields: Seq<(Seq<char>, Value)>) -> Result<YieldView, DecodeFailure> {
        let unit = required_field::<String>(fields, "unit"@);
        let amount = defaulted_field::<Quantity>(fields, "amount"@, Quantity::zero_value());
        if unit is Err {
            Err(unit->Err_0)
        } else if amount is Err {
            Err(amount->Err_0)
        } else {
            Ok(
                YieldView {
                    amount: amount->Ok_0,
                    unit: unit->Ok_0,
                },
            )
        }
    }
}

impl Codec for Yield {
    open spec fn encoded(x: YieldView) -> Value {
        Value::Document(x.fields())
    }

    open spec fn decoded(v: Value, field: Seq<char>) -> Result<YieldView, DecodeFailure> {
        match v {
            Value::Document(fields) => YieldView::read(fields),
            _ => Err(DecodeFailure::TypeMismatch(field, ExpectedKind::Document)),
        }
    }

    fn encode(&self) -> (d: DocValue)
        ensures
            d@ == Value::Document(self@.fields()),
    {
        let doc = Document::new()
            .with("amount", self.amount.encode())
            .with("unit", self.unit.encode());
        proof {
            DocValue::lemma_document_model(doc);
            assert(doc@ =~= self@.fields());
        }
        DocValue::Document(doc)
    }

    fn decode(d: &DocValue, field: &str) -> (r: Result<Yield, DecodeError>)
        ensures
            outcome(r) == <Yield as Codec>::decoded(d@, field@),
    {
        match d {
            DocValue::Document(doc) => {
                proof {
                    DocValue::lemma_document_model(*doc);
                }
                let unit = required::<String>(doc, "unit")?;
                let amount = defaulted::<Quantity>(doc, "amount", Quantity::zero())?;
                Ok(Yield { amount, unit })
            },
            _ => Err(DecodeError::TypeMismatch(String::from_str(field), ExpectedKind::Document)),
        }
    }

    proof fn law_round_trip(x: YieldView, field: Seq<char>)
        ensures
            YieldView::read(x.fields()) == Ok::<YieldView, DecodeFailure>(x),
    {
        let fields = x.fields();
        reveal_strlit("amount");
        reveal_strlit("unit");
        assert(fields.len() == 2);
        assert(fields[0].0 == "amount"@);
        assert(fields[1].0 == "unit"@);
        lemma_lookup_found(fields, "amount"@, 0);
        lemma_lookup_found(fields, "unit"@, 1);
        lemma_defaulted_reads_back::<Quantity>(fields, "amount"@, x.amount, Quantity::zero_value());
        lemma_required_reads_back::<String>(fields, "unit"@, x.unit);
    }
}

impl TemperatureView {
    /// The fields under which a temperature is stored, in their order.
    pub open spec fn fields(self) -> Seq<(Seq<char>, Value)> {
        seq![
            ("amount"@, <Quantity as Codec>::encoded(self.amount)),
            ("unit"@, <TemperatureUnit as Codec>::encoded(self.unit)),
        ]
    }

    /// What a record reads as when it is taken for a temperature.
    /// An amount that is left out is zero, a scale that is left out is
    /// Celsius.
    pub open spec fn read(fields: Seq<(Seq<char>, Value)>) -> Result<
        TemperatureView,
        DecodeFailure,
    > {
        let amount = defaulted_field::<Quantity>(fields, "amount"@, Quantity::zero_value());
        let unit = defaulted_field::<TemperatureUnit>(fields, "unit"@, TemperatureUnit::Celsius);
        if amount is Err {
            Err(amount->Err_0)
        } else if unit is Err {
            Err(unit->Err_0)
        } else {
            Ok(
                TemperatureView {
                    amount: amount->Ok_0,
                    unit: unit->Ok_0,
                },
            )
        }
    }
}

impl Codec for Temperature {
    open spec fn encoded(x: TemperatureView) -> Value {
        Value::Document(x.fields())
    }

    open spec fn decoded(v: Value, field: Seq<char>) -> Result<TemperatureView, DecodeFailure> {
        match v {
            Value::Document(fields) => TemperatureView::read(fields),
            _ => Err(DecodeFailure::TypeMismatch(field, ExpectedKind::Document)),
        }
    }

    fn encode(&self) -> (d: DocValue)
        ensures
            d@ == Value::Document(self@.fields()),
    {
        let doc = Document::new()
            .with("amount", self.amount.encode())
            .with("unit", self.unit.encode());
        proof {
            DocValue::lemma_document_model(doc);
            assert(doc@ =~= self@.fields());
        }
        DocValue::Document(doc)
    }

    fn decode(d: &DocValue, field: &str) -> (r: Result<Temperature, DecodeError>)
        ensures
            outcome(r) == <Temperature as Codec>::decoded(d@, field@),
    {
        match d {
            DocValue::Document(doc) => {
                proof {
                    DocValue::lemma_document_model(*doc);
                }
                let amount = defaulted::<Quantity>(doc, "amount", Quantity::zero())?;
                let unit = defaulted::<TemperatureUnit>(doc, "unit", TemperatureUnit::Celsius)?;
                Ok(Temperature { amount, unit })
            },
            _ => Err(DecodeError::TypeMismatch(String::from_str(field), ExpectedKind::Document)),
        }
    }

    proof fn law_round_trip(x: TemperatureView, field: Seq<char>)
        ensures
            TemperatureView::read(x.fields()) == Ok::<TemperatureView, DecodeFailure>(x),
    {
        let fields = x.fields();
        reveal_strlit("amount");
        reveal_strlit("unit");
        assert(fields.len() == 2);
        assert(fields[0].0 == "amount"@);
        assert(fields[1].0 == "unit"@);
        lemma_lookup_found(fields, "amount"@, 0);
        lemma_lookup_found(fields, "unit"@, 1);
        lemma_defaulted_reads_back::<Quantity>(fields, "amount"@, x.amount, Quantity::zero_value());
        lemma_defaulted_reads_back::<TemperatureUnit>(
            fields,
            "unit"@,
            x.unit,
            TemperatureUnit::Celsius,
        );
    }
}

impl HACCPValueView {
    /// The fields under which a food-safety note is stored, in their order.
    pub open spec fn fields(self) -> Seq<(Seq<char>, Value)> {
        seq![
            ("control_point"@, <String as Codec>::encoded(self.control_point)),
            ("critical_control_point"@, <String as Codec>::encoded(self.critical_control_point)),
        ]
    }

    /// What a record reads as when it is taken for a food-safety note.
    /// A point that is left out is empty.
    pub open spec fn read(fields: Seq<(Seq<char>, Value)>) -> Result<
        HACCPValueView,
        DecodeFailure,
    > {
        let control_point = defaulted_field::<String>(
            fields,
            "control_point"@,
            Seq::<char>::empty(),
        );
        let critical_control_point = defaulted_field::<String>(
            fields,
            "critical_control_point"@,
            Seq::<char>::empty(),
        );
        if control_point is Err {
            Err(control_point->Err_0)
        } else if critical_control_point is Err {
            Err(critical_control_point->Err_0)
        } else {
            Ok(
                HACCPValueView {
                    control_point: control_point->Ok_0,
                    critical_control_point: critical_control_point->Ok_0,
                },
            )
        }
    }
}

impl Codec for HACCPValue {
    open spec fn encoded(x: HACCPValueView) -> Value {
        Value::Document(x.fields())
    }

    open spec fn decoded(v: Value, field: Seq<char>) -> Result<HACCPValueView, DecodeFailure> {
        match v {
            Value::Document(fields) => HACCPValueView::read(fields),
            _ => Err(DecodeFailure::TypeMismatch(field, ExpectedKind::Document)),
        }
    }

    fn encode(&self) -> (d: DocValue)
        ensures
            d@ == Value::Document(self@.fields()),
    {
        let doc = Document::new()
            .with("control_point", self.control_point.encode())
            .with("critical_control_point", self.critical_control_point.encode());
        proof {
            DocValue::lemma_document_model(doc);
            assert(doc@ =~= self@.fields());
        }
        DocValue::Document(doc)
    }

    fn decode(d: &DocValue, field: &str) -> (r: Result<HACCPValue, DecodeError>)
        ensures
            outcome(r) == <HACCPValue as Codec>::decoded(d@, field@),
    {
        match d {
            DocValue::Document(doc) => {
                proof {
                    DocValue::lemma_document_model(*doc);
                }
                let control_point = defaulted::<String>(doc, "control_point", String::new())?;
                let critical_control_point = defaulted::<String>(doc, "critical_control_point", String::new())?;
                Ok(HACCPValue { control_point, critical_control_point })
            },
            _ => Err(DecodeError::TypeMismatch(String::from_str(field), ExpectedKind::Document)),
        }
    }

    proof fn law_round_trip(x: HACCPValueView, field: Seq<char>)
        ensures
            HACCPValueView::read(x.fields()) == Ok::<HACCPValueView, DecodeFailure>(x),
    {
        let fields = x.fields();
        reveal_strlit("control_point");
        reveal_strlit("critical_control_point");
        assert(fields.len() == 2);
        assert(fields[0].0 == "control_point"@);
        assert(fields[1].0 == "critical_control_point"@);
        lemma_lookup_found(fields, "control_point"@, 0);
        lemma_lookup_found(fields, "critical_control_point"@, 1);
        lemma_defaulted_reads_back::<String>(
            fields,
            "control_point"@,
            x.control_point,
            Seq::<char>::empty(),
        );
        lemma_defaulted_reads_back::<String>(
            fields,
            "critical_control_point"@,
            x.critical_control_point,
            Seq::<char>::empty(),
        );
    }
}

impl StepView {
    /// The fields under which a step is stored, in their order.
    pub open spec fn fields(self) -> Seq<(Seq<char>, Value)> {
        seq![
            ("step"@, <String as Codec>::encoded(self.step)),
            ("haccp"@, encoded_option::<HACCPValue>(self.haccp)),
            ("notes"@, encoded_option::<String>(self.notes)),
        ]
    }

    /// What a record reads as when it is taken for a step.
    /// The instruction must be there.
    pub open spec fn read(fields: Seq<(Seq<char>, Value)>) -> Result<StepView, DecodeFailure> {
        let step = required_field::<String>(fields, "step"@);
        let haccp = optional_field::<HACCPValue>(fields, "haccp"@);
        let notes = optional_field::<String>(fields, "notes"@);
        if step is Err {
            Err(step->Err_0)
        } else if haccp is Err {
            Err(haccp->Err_0)
        } else if notes is Err {
            Err(notes->Err_0)
        } else {
            Ok(
                StepView {
                    step: step->Ok_0,
                    haccp: haccp->Ok_0,
                    notes: notes->Ok_0,
                },
            )
        }
    }
}

impl Codec for Step {
    open spec fn encoded(x: StepView) -> Value {
        Value::Document(x.fields())
    }

    open spec fn decoded(v: Value, field: Seq<char>) -> Result<StepView, DecodeFailure> {
        match v {
            Value::Document(fields) => StepView::read(fields),
            _ => Err(DecodeFailure::TypeMismatch(field, ExpectedKind::Document)),
        }
    }

    fn encode(&self) -> (d: DocValue)
        ensures
            d@ == Value::Document(self@.fields()),
    {
        let doc = Document::new()
            .with("step", self.step.encode())
            .with("haccp", encode_option(&self.haccp))
            .with("notes", encode_option(&self.notes));
        proof {
            DocValue::lemma_document_model(doc);
            assert(doc@ =~= self@.fields());
        }
        DocValue::Document(doc)
    }

    fn decode(d: &DocValue, field: &str) -> (r: Result<Step, DecodeError>)
        ensures
            outcome(r) == <Step as Codec>::decoded(d@, field@),
    {
        match d {
            DocValue::Document(doc) => {
                proof {
                    DocValue::lemma_document_model(*doc);
                }
                let step = required::<String>(doc, "step")?;
                let haccp = optional::<HACCPValue>(doc, "haccp")?;
                let notes = optional::<String>(doc, "notes")?;
                Ok(Step { step, haccp, notes })
            },
            _ => Err(DecodeError::TypeMismatch(String::from_str(field), ExpectedKind::Document)),
        }
    }

    proof fn law_round_trip(x: StepView, field: Seq<char>)
        ensures
            StepView::read(x.fields()) == Ok::<StepView, DecodeFailure>(x),
    {
        let fields = x.fields();
        reveal_strlit("step");
        reveal_strlit("haccp");
        reveal_strlit("notes");
        assert("haccp"@[0] != "notes"@[0]);
        assert(fields.len() == 3);
        assert(fields[0].0 == "step"@);
        assert(fields[1].0 == "haccp"@);
        assert(fields[2].0 == "notes"@);
        lemma_lookup_found(fields, "step"@, 0);
        lemma_lookup_found(fields, "haccp"@, 1);
        lemma_lookup_found(fields, "notes"@, 2);
        lemma_required_reads_back::<String>(fields, "step"@, x.step);
        lemma_optional_reads_back::<HACCPValue>(fields, "haccp"@, x.haccp);
        lemma_optional_reads_back::<String>(fields, "notes"@, x.notes);
    }
}

impl BookSourceView {
    /// The fields under which a book is stored, in their order.
    pub open spec fn fields(self) -> Seq<(Seq<char>, Value)> {
        seq![
            ("authors"@, <Vec<String> as Codec>::encoded(self.authors)),
            ("title"@, <String as Codec>::encoded(self.title)),
            ("isbn"@, encoded_option::<String>(self.isbn)),
            ("notes"@, encoded_option::<String>(self.notes)),
        ]
    }

    /// What a record reads as when it is taken for a book.
    /// The title must be there; authors that are left out are none.
    pub open spec fn read(fields: Seq<(Seq<char>, Value)>) -> Result<
        BookSourceView,
        DecodeFailure,
    > {
        let title = required_field::<String>(fields, "title"@);
        let authors = defaulted_field::<Vec<String>>(fields, "authors"@, Seq::<Seq<char>>::empty());
        let isbn = optional_field::<String>(fields, "isbn"@);
        let notes = optional_field::<String>(fields, "notes"@);
        if title is Err {
            Err(title->Err_0)
        } else if authors is Err {
            Err(authors->Err_0)
        } else if isbn is Err {
            Err(isbn->Err_0)
        } else if notes is Err {
            Err(notes->Err_0)
        } else {
            Ok(
                BookSourceView {
                    authors: authors->Ok_0,
                    title: title->Ok_0,
                    isbn: isbn->Ok_0,
                    notes: notes->Ok_0,
                },
            )
        }
    }
}

impl Codec for BookSource {
    open spec fn encoded(x: BookSourceView) -> Value {
        Value::Document(x.fields())
    }

    open spec fn decoded(v: Value, field: Seq<char>) -> Result<BookSourceView, DecodeFailure> {
        match v {
            Value::Document(fields) => BookSourceView::read(fields),
            _ => Err(DecodeFailure::TypeMismatch(field, ExpectedKind::Document)),
        }
    }

    fn encode(&self) -> (d: DocValue)
        ensures
            d@ == Value::Document(self@.fields()),
    {
        let doc = Document::new()
            .with("authors", self.authors.encode())
            .with("title", self.title.encode())
            .with("isbn", encode_option(&self.isbn))
            .with("notes", encode_option(&self.notes));
        proof {
            DocValue::lemma_document_model(doc);
            assert(doc@ =~= self@.fields());
        }
        DocValue::Document(doc)
    }

    fn decode(d: &DocValue, field: &str) -> (r: Result<BookSource, DecodeError>)
        ensures
            outcome(r) == <BookSource as Codec>::decoded(d@, field@),
    {
        match d {
            DocValue::Document(doc) => {
                proof {
                    DocValue::lemma_document_model(*doc);
                }
                let title = required::<String>(doc, "title")?;
                let no_authors: Vec<String> = Vec::new();
                assert(no_authors.deep_view() =~= Seq::<Seq<char>>::empty());
                let authors = defaulted::<Vec<String>>(doc, "authors", no_authors)?;
                let isbn = optional::<String>(doc, "isbn")?;
                let notes = optional::<String>(doc, "notes")?;
                Ok(BookSource { authors, title, isbn, notes })
            },
            _ => Err(DecodeError::TypeMismatch(String::from_str(field), ExpectedKind::Document)),
        }
    }

    proof fn law_round_trip(x: BookSourceView, field: Seq<char>)
        ensures
            BookSourceView::read(x.fields()) == Ok::<BookSourceView, DecodeFailure>(x),
    {
        let fields = x.fields();
        reveal_strlit("authors");
        reveal_strlit("title");
        reveal_strlit("isbn");
        reveal_strlit("notes");
        assert("title"@[0] != "notes"@[0]);
        assert(fields.len() == 4);
        assert(fields[0].0 == "authors"@);
        assert(fields[1].0 == "title"@);
        assert(fields[2].0 == "isbn"@);
        assert(fields[3].0 == "notes"@);
        lemma_lookup_found(fields, "authors"@, 0);
        lemma_lookup_found(fields, "title"@, 1);
        lemma_lookup_found(fields, "isbn"@, 2);
        lemma_lookup_found(fields, "notes"@, 3);
        lemma_defaulted_reads_back::<Vec<String>>(
            fields,
            "authors"@,
            x.authors,
            Seq::<Seq<char>>::empty(),
        );
        lemma_required_reads_back::<String>(fields, "title"@, x.title);
        lemma_optional_reads_back::<String>(fields, "isbn"@, x.isbn);
        lemma_optional_reads_back::<String>(fields, "notes"@, x.notes);
    }
}

impl IngredientDataView {
    /// The fields under which an entry for an ingredient is stored, in their order.
    pub open spec fn fields(self) -> Seq<(Seq<char>, Value)> {
        seq![
            ("amounts"@, <Vec<Amount> as Codec>::encoded(self.amounts)),
            ("processing"@, <Vec<String> as Codec>::encoded(self.processing)),
            ("notes"@, encoded_option::<String>(self.notes)),
            ("ingredient_name"@, <String as Codec>::encoded(self.ingredient_name)),
        ]
    }

    /// What a record reads as when it is taken for an entry for an ingredient.
    /// Amounts and processing that are left out are none, a name that is
    /// left out is empty.
    pub open spec fn read(fields: Seq<(Seq<char>, Value)>) -> Result<
        IngredientDataView,
        DecodeFailure,
    > {
        let amounts = defaulted_field::<Vec<Amount>>(
            fields,
            "amounts"@,
            Seq::<AmountView>::empty(),
        );
        let processing = defaulted_field::<Vec<String>>(
            fields,
            "processing"@,
            Seq::<Seq<char>>::empty(),
        );
        let notes = optional_field::<String>(fields, "notes"@);
        let ingredient_name = defaulted_field::<String>(
            fields,
            "ingredient_name"@,
            Seq::<char>::empty(),
        );
        if amounts is Err {
            Err(amounts->Err_0)
        } else if processing is Err {
            Err(processing->Err_0)
        } else if notes is Err {
            Err(notes->Err_0)
        } else if ingredient_name is Err {
            Err(ingredient_name->Err_0)
        } else {
            Ok(
                IngredientDataView {
                    amounts: amounts->Ok_0,
                    processing: processing->Ok_0,
                    notes: notes->Ok_0,
                    ingredient_name: ingredient_name->Ok_0,
                },
            )
        }
    }
}

impl Codec for IngredientData {
    open spec fn encoded(x: IngredientDataView) -> Value {
        Value::Document(x.fields())
    }

    open spec fn decoded(v: Value, field: Seq<char>) -> Result<IngredientDataView, DecodeFailure> {
        match v {
            Value::Document(fields) => IngredientDataView::read(fields),
            _ => Err(DecodeFailure::TypeMismatch(field, ExpectedKind::Document)),
        }
    }

    fn encode(&self) -> (d: DocValue)
        ensures
            d@ == Value::Document(self@.fields()),
    {
        let doc = Document::new()
            .with("amounts", self.amounts.encode())
            .with("processing", self.processing.encode())
            .with("notes", encode_option(&self.notes))
            .with("ingredient_name", self.ingredient_name.encode());
        proof {
            DocValue::lemma_document_model(doc);
            assert(doc@ =~= self@.fields());
        }
        DocValue::Document(doc)
    }

    fn decode(d: &DocValue, field: &str) -> (r: Result<IngredientData, DecodeError>)
        ensures
            outcome(r) == <IngredientData as Codec>::decoded(d@, field@),
    {
        match d {
            DocValue::Document(doc) => {
                proof {
                    DocValue::lemma_document_model(*doc);
                }
                let no_amounts: Vec<Amount> = Vec::new();
                assert(no_amounts.deep_view() =~= Seq::<AmountView>::empty());
                let amounts = defaulted::<Vec<Amount>>(doc, "amounts", no_amounts)?;
                let no_processing: Vec<String> = Vec::new();
                assert(no_processing.deep_view() =~= Seq::<Seq<char>>::empty());
                let processing = defaulted::<Vec<String>>(doc, "processing", no_processing)?;
                let notes = optional::<String>(doc, "notes")?;
                let ingredient_name = defaulted::<String>(doc, "ingredient_name", String::new())?;
                Ok(IngredientData { amounts, processing, notes, ingredient_name })
            },
            _ => Err(DecodeError::TypeMismatch(String::from_str(field), ExpectedKind::Document)),
        }
    }

    proof fn law_round_trip(x: IngredientDataView, field: Seq<char>)
        ensures
            IngredientDataView::read(x.fields()) == Ok::<IngredientDataView, DecodeFailure>(x),
    {
        let fields = x.fields();
        reveal_strlit("amounts");
        reveal_strlit("processing");
        reveal_strlit("notes");
        reveal_strlit("ingredient_name");
        assert(fields.len() == 4);
        assert(fields[0].0 == "amounts"@);
        assert(fields[1].0 == "processing"@);
        assert(fields[2].0 == "notes"@);
        assert(fields[3].0 == "ingredient_name"@);
        lemma_lookup_found(fields, "amounts"@, 0);
        lemma_lookup_found(fields, "processing"@, 1);
        lemma_lookup_found(fields, "notes"@, 2);
        lemma_lookup_found(fields, "ingredient_name"@, 3);
        lemma_defaulted_reads_back::<Vec<Amount>>(
            fields,
            "amounts"@,
            x.amounts,
            Seq::<AmountView>::empty(),
        );
        lemma_defaulted_reads_back::<Vec<String>>(
            fields,
            "processing"@,
            x.processing,
            Seq::<Seq<char>>::empty(),
        );
        lemma_optional_reads_back::<String>(fields, "notes"@, x.notes);
        lemma_defaulted_reads_back::<String>(
            fields,
            "ingredient_name"@,
            x.ingredient_name,
            Seq::<char>::empty(),
        );
    }
}

impl IngredientView {
    /// The fields under which a line of the list of ingredients is stored, in their order.
    pub open spec fn fields(self) -> Seq<(Seq<char>, Value)> {
        seq![
            ("ingredient"@, <IngredientData as Codec>::encoded(self.ingredient)),
            ("substitutions"@, <Vec<IngredientData> as Codec>::encoded(self.substitutions)),
        ]
    }

    /// What a record reads as when it is taken for a line of the list of ingredients.
    /// An entry that is left out is empty, substitutions that are left out
    /// are none.
    pub open spec fn read(fields: Seq<(Seq<char>, Value)>) -> Result<
        IngredientView,
        DecodeFailure,
    > {
        let ingredient = defaulted_field::<IngredientData>(
            fields,
            "ingredient"@,
            IngredientDataView::empty(),
        );
        let substitutions = defaulted_field::<Vec<IngredientData>>(
            fields,
            "substitutions"@,
            Seq::<IngredientDataView>::empty(),
        );
        if ingredient is Err {
            Err(ingredient->Err_0)
        } else if substitutions is Err {
            Err(substitutions->Err_0)
        } else {
            Ok(
                IngredientView {
                    ingredient: ingredient->Ok_0,
                    substitutions: substitutions->Ok_0,
                },
            )
        }
    }
}

impl Codec for Ingredient {
    open spec fn encoded(x: IngredientView) -> Value {
        Value::Document(x.fields())
    }

    open spec fn decoded(v: Value, field: Seq<char>) -> Result<IngredientView, DecodeFailure> {
        match v {
            Value::Document(fields) => IngredientView::read(fields),
            _ => Err(DecodeFailure::TypeMismatch(field, ExpectedKind::Document)),
        }
    }

    fn encode(&self) -> (d: DocValue)
        ensures
            d@ == Value::Document(self@.fields()),
    {
        let doc = Document::new()
            .with("ingredient", self.ingredient.encode())
            .with("substitutions", self.substitutions.encode());
        proof {
            DocValue::lemma_document_model(doc);
            assert(doc@ =~= self@.fields());
        }
        DocValue::Document(doc)
    }

    fn decode(d: &DocValue, field: &str) -> (r: Result<Ingredient, DecodeError>)
        ensures
            outcome(r) == <Ingredient as Codec>::decoded(d@, field@),
    {
        match d {
            DocValue::Document(doc) => {
                proof {
                    DocValue::lemma_document_model(*doc);
                }
                let ingredient = defaulted::<IngredientData>(doc, "ingredient", IngredientData::default())?;
                let no_substitutions: Vec<IngredientData> = Vec::new();
                assert(no_substitutions.deep_view() =~= Seq::<IngredientDataView>::empty());
                let substitutions = defaulted::<Vec<IngredientData>>(doc, "substitutions", no_substitutions)?;
                Ok(Ingredient { ingredient, substitutions })
            },
            _ => Err(DecodeError::TypeMismatch(String::from_str(field), ExpectedKind::Document)),
        }
    }

    proof fn law_round_trip(x: IngredientView, field: Seq<char>)
        ensures
            IngredientView::read(x.fields()) == Ok::<IngredientView, DecodeFailure>(x),
    {
        let fields = x.fields();
        reveal_strlit("ingredient");
        reveal_strlit("substitutions");
        assert(fields.len() == 2);
        assert(fields[0].0 == "ingredient"@);
        assert(fields[1].0 == "substitutions"@);
        lemma_lookup_found(fields, "ingredient"@, 0);
        lemma_lookup_found(fields, "substitutions"@, 1);
        lemma_defaulted_reads_back::<IngredientData>(
            fields,
            "ingredient"@,
            x.ingredient,
            IngredientDataView::empty(),
        );
        lemma_defaulted_reads_back::<Vec<IngredientData>>(
            fields,
            "substitutions"@,
            x.substitutions,
            Seq::<IngredientDataView>::empty(),
        );
    }
}

impl RecipeRequestView {
    /// The fields under which a request is stored, in their order. Each is
    /// there, with the marker for "no value" where the request says nothing.
    pub open spec fn fields(self) -> Seq<(Seq<char>, Value)> {
        seq![
            ("recipe_name"@, encoded_option::<String>(self.recipe_name)),
            ("oven_time"@, encoded_option::<Quantity>(self.oven_time)),
            ("notes"@, encoded_option::<String>(self.notes)),
            ("oven_fan"@, encoded_option::<OvenFanValue>(self.oven_fan)),
            ("oven_temp"@, encoded_option::<Temperature>(self.oven_temp)),
            ("source_book"@, encoded_option::<BookSource>(self.source_book)),
            ("source_authors"@, encoded_option::<Vec<String>>(self.source_authors)),
            ("source_url"@, encoded_option::<String>(self.source_url)),
            ("ingredients"@, encoded_option::<Vec<Ingredient>>(self.ingredients)),
            ("steps"@, encoded_option::<Vec<Step>>(self.steps)),
            ("yields"@, encoded_option::<Vec<Yield>>(self.yields)),
        ]
    }

    /// What a record reads as when it is taken for a request. Every field may
    /// be left out; the first field that holds what it cannot mean decides
    /// the failure.
    pub open spec fn read(fields: Seq<(Seq<char>, Value)>) -> Result<
        RecipeRequestView,
        DecodeFailure,
    > {
        let recipe_name = optional_field::<String>(fields, "recipe_name"@);
        let oven_time = optional_field::<Quantity>(fields, "oven_time"@);
        let notes = optional_field::<String>(fields, "notes"@);
        let oven_fan = optional_field::<OvenFanValue>(fields, "oven_fan"@);
        let oven_temp = optional_field::<Temperature>(fields, "oven_temp"@);
        let source_book = optional_field::<BookSource>(fields, "source_book"@);
        let source_authors = optional_field::<Vec<String>>(fields, "source_authors"@);
        let source_url = optional_field::<String>(fields, "source_url"@);
        let ingredients = optional_field::<Vec<Ingredient>>(fields, "ingredients"@);
        let steps = optional_field::<Vec<Step>>(fields, "steps"@);
        let yields = optional_field::<Vec<Yield>>(fields, "yields"@);
        if recipe_name is Err {
            Err(recipe_name->Err_0)
        } else if oven_time is Err {
            Err(oven_time->Err_0)
        } else if notes is Err {
            Err(notes->Err_0)
        } else if oven_fan is Err {
            Err(oven_fan->Err_0)
        } else if oven_temp is Err {
            Err(oven_temp->Err_0)
        } else if source_book is Err {
            Err(source_book->Err_0)
        } else if source_authors is Err {
            Err(source_authors->Err_0)
        } else if source_url is Err {
            Err(source_url->Err_0)
        } else if ingredients is Err {
            Err(ingredients->Err_0)
        } else if steps is Err {
            Err(steps->Err_0)
        } else if yields is Err {
            Err(yields->Err_0)
        } else {
            Ok(
                RecipeRequestView {
                    recipe_name: recipe_name->Ok_0,
                    oven_time: oven_time->Ok_0,
                    notes: notes->Ok_0,
                    oven_fan: oven_fan->Ok_0,
                    oven_temp: oven_temp->Ok_0,
                    source_book: source_book->Ok_0,
                    source_authors: source_authors->Ok_0,
                    source_url: source_url->Ok_0,
                    ingredients: ingredients->Ok_0,
                    steps: steps->Ok_0,
                    yields: yields->Ok_0,
                },
            )
        }
    }
}

/// What the names of a stored recipe hold, character by character, as far as
/// it tells them apart.
pub proof fn lemma_recipe_names()
    ensures
        "_id"@.len() == 3,
        "recipe_name"@.len() == 11,
        "oven_time"@.len() == 9,
        "notes"@.len() == 5,
        "oven_fan"@.len() == 8,
        "oven_temp"@.len() == 9,
        "source_book"@.len() == 11,
        "source_authors"@.len() == 14,
        "source_url"@.len() == 10,
        "ingredients"@.len() == 11,
        "steps"@.len() == 5,
        "yields"@.len() == 6,
        "recipe_name"@[0] == 'r',
        "source_book"@[0] == 's',
        "ingredients"@[0] == 'i',
        "oven_time"@[6] == 'i',
        "oven_temp"@[6] == 'e',
        "notes"@[0] == 'n',
        "steps"@[0] == 's',
{
    reveal_strlit("_id");
    reveal_strlit("recipe_name");
    reveal_strlit("oven_time");
    reveal_strlit("notes");
    reveal_strlit("oven_fan");
    reveal_strlit("oven_temp");
    reveal_strlit("source_book");
    reveal_strlit("source_authors");
    reveal_strlit("source_url");
    reveal_strlit("ingredients");
    reveal_strlit("steps");
    reveal_strlit("yields");
}

/// Writes a request as the record under which it is stored.
pub fn doc_from_recipe_request(recipe_request: &RecipeRequest) -> (doc: Document)
    ensures
        doc@ == recipe_request@.fields(),
{
    let doc = Document::new()
        .with("recipe_name", encode_option(&recipe_request.recipe_name))
        .with("oven_time", encode_option(&recipe_request.oven_time))
        .with("notes", encode_option(&recipe_request.notes))
        .with("oven_fan", encode_option(&recipe_request.oven_fan))
        .with("oven_temp", encode_option(&recipe_request.oven_temp))
        .with("source_book", encode_option(&recipe_request.source_book))
        .with("source_authors", encode_option(&recipe_request.source_authors))
        .with("source_url", encode_option(&recipe_request.source_url))
        .with("ingredients", encode_option(&recipe_request.ingredients))
        .with("steps", encode_option(&recipe_request.steps))
        .with("yields", encode_option(&recipe_request.yields));
    assert(doc@ =~= recipe_request@.fields());
    doc
}

/// Reads a stored record as a request.
pub fn doc_to_recipe_request(doc: &Document) -> (r: Result<RecipeRequest, DecodeError>)
    ensures
        outcome(r) == RecipeRequestView::read(doc@),
{
    let recipe_name = optional::<String>(doc, "recipe_name")?;
    let oven_time = optional::<Quantity>(doc, "oven_time")?;
    let notes = optional::<String>(doc, "notes")?;
    let oven_fan = optional::<OvenFanValue>(doc, "oven_fan")?;
    let oven_temp = optional::<Temperature>(doc, "oven_temp")?;
    let source_book = optional::<BookSource>(doc, "source_book")?;
    let source_authors = optional::<Vec<String>>(doc, "source_authors")?;
    let source_url = optional::<String>(doc, "source_url")?;
    let ingredients = optional::<Vec<Ingredient>>(doc, "ingredients")?;
    let steps = optional::<Vec<Step>>(doc, "steps")?;
    let yields = optional::<Vec<Yield>>(doc, "yields")?;
    Ok(
        RecipeRequest {
            recipe_name,
            oven_time,
            notes,
            oven_fan,
            oven_temp,
            source_book,
            source_authors,
            source_url,
            ingredients,
            steps,
            yields,
        },
    )
}

/// Where the fields of a written request stand: each name once, and under
/// it what the request holds for it.
pub proof fn lemma_request_fields(x: RecipeRequestView)
    ensures
        x.fields().len() == 11,
        distinct_keys(x.fields()),
        lookup(x.fields(), "recipe_name"@) == Some(encoded_option::<String>(x.recipe_name)),
        lookup(x.fields(), "oven_time"@) == Some(encoded_option::<Quantity>(x.oven_time)),
        lookup(x.fields(), "notes"@) == Some(encoded_option::<String>(x.notes)),
        lookup(x.fields(), "oven_fan"@) == Some(encoded_option::<OvenFanValue>(x.oven_fan)),
        lookup(x.fields(), "oven_temp"@) == Some(encoded_option::<Temperature>(x.oven_temp)),
        lookup(x.fields(), "source_book"@) == Some(encoded_option::<BookSource>(x.source_book)),
        lookup(x.fields(), "source_authors"@) == Some(encoded_option::<Vec<String>>(x.source_authors)),
        lookup(x.fields(), "source_url"@) == Some(encoded_option::<String>(x.source_url)),
        lookup(x.fields(), "ingredients"@) == Some(encoded_option::<Vec<Ingredient>>(x.ingredients)),
        lookup(x.fields(), "steps"@) == Some(encoded_option::<Vec<Step>>(x.steps)),
        lookup(x.fields(), "yields"@) == Some(encoded_option::<Vec<Yield>>(x.yields)),
{
    let fields = x.fields();
    lemma_recipe_names();
    assert(fields.len() == 11);
    assert(fields[0].0 == "recipe_name"@);
    assert(fields[1].0 == "oven_time"@);
    assert(fields[2].0 == "notes"@);
    assert(fields[3].0 == "oven_fan"@);
    assert(fields[4].0 == "oven_temp"@);
    assert(fields[5].0 == "source_book"@);
    assert(fields[6].0 == "source_authors"@);
    assert(fields[7].0 == "source_url"@);
    assert(fields[8].0 == "ingredients"@);
    assert(fields[9].0 == "steps"@);
    assert(fields[10].0 == "yields"@);
    lemma_lookup_found(fields, "recipe_name"@, 0);
    lemma_lookup_found(fields, "oven_time"@, 1);
    lemma_lookup_found(fields, "notes"@, 2);
    lemma_lookup_found(fields, "oven_fan"@, 3);
    lemma_lookup_found(fields, "oven_temp"@, 4);
    lemma_lookup_found(fields, "source_book"@, 5);
    lemma_lookup_found(fields, "source_authors"@, 6);
    lemma_lookup_found(fields, "source_url"@, 7);
    lemma_lookup_found(fields, "ingredients"@, 8);
    lemma_lookup_found(fields, "steps"@, 9);
    lemma_lookup_found(fields, "yields"@, 10);
}

/// A request is read back, as it was, from the record that it was written
/// as.
pub proof fn law_request_round_trip(x: RecipeRequestView)
    ensures
        RecipeRequestView::read(x.fields()) == Ok::<RecipeRequestView, DecodeFailure>(x),
{
    let fields = x.fields();
    lemma_request_fields(x);
    lemma_optional_reads_back::<String>(fields, "recipe_name"@, x.recipe_name);
    lemma_optional_reads_back::<Quantity>(fields, "oven_time"@, x.oven_time);
    lemma_optional_reads_back::<String>(fields, "notes"@, x.notes);
    lemma_optional_reads_back::<OvenFanValue>(fields, "oven_fan"@, x.oven_fan);
    lemma_optional_reads_back::<Temperature>(fields, "oven_temp"@, x.oven_temp);
    lemma_optional_reads_back::<BookSource>(fields, "source_book"@, x.source_book);
    lemma_optional_reads_back::<Vec<String>>(fields, "source_authors"@, x.source_authors);
    lemma_optional_reads_back::<String>(fields, "source_url"@, x.source_url);
    lemma_optional_reads_back::<Vec<Ingredient>>(fields, "ingredients"@, x.ingredients);
    lemma_optional_reads_back::<Vec<Step>>(fields, "steps"@, x.steps);
    lemma_optional_reads_back::<Vec<Yield>>(fields, "yields"@, x.yields);
}

impl RecipeView {
    /// The fields under which a recipe is stored: its identifier, as the
    /// store holds it, and then what a request holds.
    pub open spec fn fields(self) -> Seq<(Seq<char>, Value)> {
        seq![("_id"@, Value::ObjectId(bytes_of_hex(self.recipe_uuid)))] + self.request().fields()
    }

    /// The identifier that a record bears, as a text. It must be there.
    pub open spec fn read_identifier(fields: Seq<(Seq<char>, Value)>) -> Result<
        Seq<char>,
        DecodeFailure,
    > {
        match held(fields, "_id"@) {
            None => Err(DecodeFailure::MissingRequiredField("_id"@)),
            Some(Value::ObjectId(bytes)) => Ok(hex_of(bytes)),
            Some(_) => Err(DecodeFailure::TypeMismatch("_id"@, ExpectedKind::Identifier)),
        }
    }

    /// What a record reads as when it is taken for a recipe: what it reads as
    /// when taken for a request, under the identifier that it bears.
    pub open spec fn read(fields: Seq<(Seq<char>, Value)>) -> Result<RecipeView, DecodeFailure> {
        let id = RecipeView::read_identifier(fields);
        let request = RecipeRequestView::read(fields);
        if id is Err {
            Err(id->Err_0)
        } else if request is Err {
            Err(request->Err_0)
        } else {
            Ok(RecipeView::of_request(id->Ok_0, request->Ok_0))
        }
    }
}

/// Writes a recipe as the record under which it is stored. There is such a
/// record exactly when the recipe's identifier can be read as one of the
/// store.
pub fn doc_from_recipe(recipe: &Recipe) -> (r: Option<Document>)
    ensures
        r is Some <==> is_identifier(recipe@.recipe_uuid),
        r matches Some(doc) ==> doc@ == recipe@.fields(),
{
    match parse_identifier(recipe.recipe_uuid.as_str()) {
        None => None,
        Some(bytes) => {
            let doc = Document::new()
                .with("_id", DocValue::ObjectId(bytes))
                .with("recipe_name", encode_option(&recipe.recipe_name))
                .with("oven_time", encode_option(&recipe.oven_time))
                .with("notes", encode_option(&recipe.notes))
                .with("oven_fan", encode_option(&recipe.oven_fan))
                .with("oven_temp", encode_option(&recipe.oven_temp))
                .with("source_book", encode_option(&recipe.source_book))
                .with("source_authors", encode_option(&recipe.source_authors))
                .with("source_url", encode_option(&recipe.source_url))
                .with("ingredients", encode_option(&recipe.ingredients))
                .with("steps", encode_option(&recipe.steps))
                .with("yields", encode_option(&recipe.yields));
            assert(doc@ =~= recipe@.fields());
            Some(doc)
        },
    }
}

/// Reads the identifier that a stored record bears.
fn doc_identifier(doc: &Document) -> (r: Result<String, DecodeError>)
    ensures
        outcome(r) == RecipeView::read_identifier(doc@),
{
    match held_value(doc, "_id") {
        None => Err(DecodeError::MissingRequiredField(String::from_str("_id"))),
        Some(DocValue::ObjectId(bytes)) => Ok(identifier_text(bytes)),
        Some(_) => Err(DecodeError::TypeMismatch(String::from_str("_id"), ExpectedKind::Identifier)),
    }
}

/// Reads a stored record as a recipe.
pub fn doc_to_recipe(doc: &Document) -> (r: Result<Recipe, DecodeError>)
    ensures
        outcome(r) == RecipeView::read(doc@),
{
    let recipe_uuid = doc_identifier(doc)?;
    let request = doc_to_recipe_request(doc)?;
    Ok(Recipe::from_request(recipe_uuid, request))
}

/// Where the fields of a written recipe stand: the identifier first, and
/// behind it the fields of the request that the recipe holds, each name once.
pub proof fn lemma_recipe_fields(x: RecipeView)
    ensures
        x.fields().len() == 12,
        lookup(x.fields(), "_id"@) == Some(Value::ObjectId(bytes_of_hex(x.recipe_uuid))),
        lookup(x.fields(), "recipe_name"@) == lookup(x.request().fields(), "recipe_name"@),
        lookup(x.fields(), "oven_time"@) == lookup(x.request().fields(), "oven_time"@),
        lookup(x.fields(), "notes"@) == lookup(x.request().fields(), "notes"@),
        lookup(x.fields(), "oven_fan"@) == lookup(x.request().fields(), "oven_fan"@),
        lookup(x.fields(), "oven_temp"@) == lookup(x.request().fields(), "oven_temp"@),
        lookup(x.fields(), "source_book"@) == lookup(x.request().fields(), "source_book"@),
        lookup(x.fields(), "source_authors"@) == lookup(x.request().fields(), "source_authors"@),
        lookup(x.fields(), "source_url"@) == lookup(x.request().fields(), "source_url"@),
        lookup(x.fields(), "ingredients"@) == lookup(x.request().fields(), "ingredients"@),
        lookup(x.fields(), "steps"@) == lookup(x.request().fields(), "steps"@),
        lookup(x.fields(), "yields"@) == lookup(x.request().fields(), "yields"@),
{
    let front = seq![("_id"@, Value::ObjectId(bytes_of_hex(x.recipe_uuid)))];
    let rest = x.request().fields();
    let fields = x.fields();
    lemma_recipe_names();
    assert(front.len() == 1);
    assert(fields[0] == front[0]);
    lemma_lookup_found(fields, "_id"@, 0);
    lemma_lookup_behind(front, rest, "recipe_name"@);
    lemma_lookup_behind(front, rest, "oven_time"@);
    lemma_lookup_behind(front, rest, "notes"@);
    lemma_lookup_behind(front, rest, "oven_fan"@);
    lemma_lookup_behind(front, rest, "oven_temp"@);
    lemma_lookup_behind(front, rest, "source_book"@);
    lemma_lookup_behind(front, rest, "source_authors"@);
    lemma_lookup_behind(front, rest, "source_url"@);
    lemma_lookup_behind(front, rest, "ingredients"@);
    lemma_lookup_behind(front, rest, "steps"@);
    lemma_lookup_behind(front, rest, "yields"@);
}

/// A recipe whose identifier is one as the store writes it is read back, as
/// it was, from the record that it was written as.
pub proof fn law_recipe_round_trip(x: RecipeView)
    requires
        is_canonical(x.recipe_uuid),
    ensures
        RecipeView::read(x.fields()) == Ok::<RecipeView, DecodeFailure>(x),
{
    lemma_recipe_fields(x);
    law_canonical_round_trip(x.recipe_uuid);
    law_request_round_trip(x.request());
}

} // verus!
