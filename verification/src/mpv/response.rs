//! What the player says: answers to commands, and events.

use vstd::prelude::*;

use crate::mpv::json::Json;

verus! {

/// The result of a command: the data that the player answered with, or its error.
pub type MpvResult = Result<Json, String>;

/// A change of a property.
#[derive(Debug, PartialEq, Eq)]
pub enum PropertyChange {
    /// How much has been played, in seconds, a JSON number.
    PlaybackTime(Json),
}

/// Something that happened in the player.
#[derive(Debug, PartialEq, Eq)]
pub enum Event {
    PlaybackRestart,
    /// A property has changed that is observed under this number.
    PropertyChange { id: i64, property_change: PropertyChange },
    Pause,
}

/// A message from the player.
#[derive(Debug, PartialEq, Eq)]
pub enum Message {
    Event(Event),
    /// The answer to the command with this number.
    Response { request_id: i64, result: MpvResult },
}

impl Clone for PropertyChange {
    fn clone(&self) -> (r: PropertyChange)
        ensures
            r == *self,
    {
        match self {
            PropertyChange::PlaybackTime(time) => PropertyChange::PlaybackTime(time.clone()),
        }
    }
}

impl Clone for Event {
    fn clone(&self) -> (r: Event)
        ensures
            r == *self,
    {
        match self {
            Event::PlaybackRestart => Event::PlaybackRestart,
            Event::PropertyChange { id, property_change } => Event::PropertyChange {
                id: *id,
                property_change: property_change.clone(),
            },
            Event::Pause => Event::Pause,
        }
    }
}

impl Clone for Message {
    fn clone(&self) -> (r: Message)
        ensures
            r == *self,
    {
        match self {
            Message::Event(event) => Message::Event(event.clone()),
            Message::Response { request_id, result } => Message::Response {
                request_id: *request_id,
                result: match result {
                    Ok(data) => Ok(data.clone()),
                    Err(error) => Err(error.clone()),
                },
            },
        }
    }
}

/// One of the fields that say what the result of a command is.
#[derive(Debug, PartialEq, Eq)]
pub enum Field {
    /// The data.
    Data(Json),
    /// How it went. `None` stands for what is not a plain string.
    Error(Option<String>),
}

/// Why the fields of an answer give no result.
#[derive(Clone, Copy, Debug, PartialEq, Eq, Structural)]
pub enum ResponseError {
    /// There is more than one field with data.
    DuplicateData,
    /// There is more than one field that says how it went.
    DuplicateError,
    /// The field that says how it went is no string.
    UnreadableError,
    /// No field says how it went, or there is data though it went wrong.
    MissingError,
}

/// What is wrong with a field, coming after the fields before it.
pub open spec fn fault_at(fields: Seq<Field>, i: int) -> Option<ResponseError> {
    match fields[i] {
        Field::Data(_) => if exists|j: int| 0 <= j < i && #[trigger] fields[j] is Data {
            Some(ResponseError::DuplicateData)
        } else {
            None
        },
        Field::Error(text) => if exists|j: int| 0 <= j < i && #[trigger] fields[j] is Error {
            Some(ResponseError::DuplicateError)
        } else if text is None {
            Some(ResponseError::UnreadableError)
        } else {
            None
        },
    }
}

/// Whether nothing is wrong with the first `n` fields.
pub open spec fn faultless(fields: Seq<Field>, n: int) -> bool {
    forall|i: int| 0 <= i < n ==> #[trigger] fault_at(fields, i) is None
}

/// The data in the fields, if there are any.
pub open spec fn data_in(fields: Seq<Field>) -> Option<Seq<char>>
    decreases fields.len(),
{
    if fields.len() == 0 {
        None
    } else {
        match fields.last() {
            Field::Data(data) => Some(data@),
            Field::Error(_) => data_in(fields.drop_last()),
        }
    }
}

/// What the fields say of how it went, if they do.
pub open spec fn error_in(fields: Seq<Field>) -> Option<Seq<char>>
    decreases fields.len(),
{
    if fields.len() == 0 {
        None
    } else {
        match fields.last() {
            Field::Error(Some(text)) => Some(text@),
            _ => error_in(fields.drop_last()),
        }
    }
}

/// The result that data and word of how it went give: the data, or `null`, on
/// success, and the error otherwise, which must come without data.
pub open spec fn result_of(data: Option<Seq<char>>, error: Option<Seq<char>>) -> Result<
    Result<Seq<char>, Seq<char>>,
    ResponseError,
> {
    match error {
        None => Err(ResponseError::MissingError),
        Some(text) => if text == "success"@ {
            match data {
                Some(data) => Ok(Ok(data)),
                None => Ok(Ok("null"@)),
            }
        } else if data is None {
            Ok(Err(text))
        } else {
            Err(ResponseError::MissingError)
        },
    }
}

/// A result, with texts for the documents and strings in it.
pub open spec fn result_text(result: MpvResult) -> Result<Seq<char>, Seq<char>> {
    match result {
        Ok(data) => Ok(data@),
        Err(error) => Err(error@),
    }
}

/// The result of a command, from the fields of the answer in the order in which they
/// stand. The first field that there is something wrong with decides, if there is
/// one.
pub fn deserialize_response_result(fields: &Vec<Field>) -> (r: Result<MpvResult, ResponseError>)
    ensures
        forall|i: int|
            0 <= i < fields@.len() && faultless(fields@, i) && #[trigger] fault_at(
                fields@,
                i,
            ) is Some ==> r == Err::<MpvResult, ResponseError>(fault_at(fields@, i)->0),
        faultless(fields@, fields@.len() as int) ==> match r {
            Ok(result) => result_of(data_in(fields@), error_in(fields@)) == Ok::<
                Result<Seq<char>, Seq<char>>,
                ResponseError,
            >(result_text(result)),
            Err(e) => result_of(data_in(fields@), error_in(fields@)) == Err::<
                Result<Seq<char>, Seq<char>>,
                ResponseError,
            >(e),
        },
{
    let mut data: Option<Json> = None;
    let mut error: Option<String> = None;

    let mut i: usize = 0;
    while i < fields.len()
        invariant
            i <= fields.len(),
            faultless(fields@, i as int),
            data is Some <==> exists|j: int| 0 <= j < i && #[trigger] fields@[j] is Data,
            error is Some <==> exists|j: int| 0 <= j < i && #[trigger] fields@[j] is Error,
            data is Some ==> data_in(fields@.take(i as int)) == Some(data->0@),
            data is None ==> data_in(fields@.take(i as int)) is None,
            error is Some ==> error_in(fields@.take(i as int)) == Some(error->0@),
            error is None ==> error_in(fields@.take(i as int)) is None,
        decreases fields.len() - i,
    {
        let ghost before = fields@.take(i as int);
        let ghost after = fields@.take(i + 1);
        assert(after.drop_last() =~= before);
        assert(after.last() == fields@[i as int]);
        match &fields[i] {
            Field::Data(value) => {
                if data.is_some() {
                    assert(fault_at(fields@, i as int) == Some(ResponseError::DuplicateData));
                    return Err(ResponseError::DuplicateData);
                }
                data = Some(value.clone());
            },
            Field::Error(value) => {
                if error.is_some() {
                    assert(fault_at(fields@, i as int) == Some(ResponseError::DuplicateError));
                    return Err(ResponseError::DuplicateError);
                }
                match value {
                    Some(text) => {
                        error = Some(text.clone());
                    },
                    None => {
                        assert(fault_at(fields@, i as int) == Some(
                            ResponseError::UnreadableError,
                        ));
                        return Err(ResponseError::UnreadableError);
                    },
                }
            },
        }
        assert(fault_at(fields@, i as int) is None);
        i = i + 1;
    }
    assert(fields@.take(i as int) =~= fields@);

    match (data, error) {
        (data, Some(error)) => {
            if error == "success".to_owned() {
                match data {
                    Some(data) => Ok(Ok(data)),
                    None => Ok(Ok(Json::null())),
                }
            } else if data.is_none() {
                Ok(Err(error))
            } else {
                Err(ResponseError::MissingError)
            }
        },
        (_, None) => Err(ResponseError::MissingError),
    }
}

/// Either there is nothing wrong with the fields of an answer, or there is a first
/// field that something is wrong with: every answer has a result or is refused for
/// one reason.
pub proof fn law_first_fault(fields: Seq<Field>, n: int)
    requires
        0 <= n <= fields.len(),
    ensures
        faultless(fields, n) || exists|i: int|
            0 <= i < n && faultless(fields, i) && #[trigger] fault_at(fields, i) is Some,
    decreases n,
{
    if n > 0 {
        law_first_fault(fields, n - 1);
        if faultless(fields, n - 1) && fault_at(fields, n - 1) is None {
            assert(faultless(fields, n));
        }
    }
}

/// The order of the fields of an answer does not matter: where nothing is wrong with
/// them there are two at most, and the other way round nothing is wrong either, and they
/// say the same.
pub proof fn law_field_order_does_not_matter(fields: Seq<Field>)
    requires
        faultless(fields, fields.len() as int),
    ensures
        fields.len() <= 2,
        faultless(fields.reverse(), fields.len() as int),
        data_in(fields.reverse()) == data_in(fields),
        error_in(fields.reverse()) == error_in(fields),
{
    assert(forall|i: int| 0 <= i < fields.len() ==> fault_at(fields, i) is None);
    if fields.len() > 2 {
        assert(fault_at(fields, 1) is None && fault_at(fields, 2) is None);
        assert(fields[0] is Data || fields[0] is Error);
        assert(fields[1] is Data || fields[1] is Error);
    }
    let reversed = fields.reverse();
    if fields.len() < 2 {
        assert(reversed =~= fields);
    } else {
        assert(fault_at(fields, 0) is None && fault_at(fields, 1) is None);
        assert(fields[0] is Data <==> fields[1] is Error);
        assert(reversed[0] == fields[1] && reversed[1] == fields[0]);
        assert forall|i: int| 0 <= i < 2 implies #[trigger] fault_at(reversed, i) is None by {
            if i == 0 {
                assert(fault_at(reversed, 0) is None);
            }
        }
        assert(fields.drop_last().drop_last() =~= Seq::empty());
        assert(reversed.drop_last().drop_last() =~= Seq::empty());
        reveal_with_fuel(data_in, 3);
        reveal_with_fuel(error_in, 3);
    }
}

/// An answer that says that all went well gives its data, or `null` without any; one that
/// says otherwise gives what it says, and must come without data. The fields may stand in
/// either order, and one that says how it went must be there.
pub proof fn law_result_of_an_answer(
    fields: Vec<Field>,
    data: Json,
    error: String,
    r: Result<MpvResult, ResponseError>,
)
    requires
        call_ensures(deserialize_response_result, (&fields,), r),
    ensures
        ({
            let with_data = fields@ == seq![Field::Data(data), Field::Error(Some(error))]
                || fields@ == seq![Field::Error(Some(error)), Field::Data(data)];
            let without = fields@ == seq![Field::Error(Some(error))];
            let success = error@ == "success"@;
            &&& with_data && success ==> (r matches Ok(Ok(value)) && value@ == data@)
            &&& with_data && !success ==> r == Err::<MpvResult, ResponseError>(
                ResponseError::MissingError,
            )
            &&& without && success ==> (r matches Ok(Ok(value)) && value@ == "null"@)
            &&& without && !success ==> (r matches Ok(Err(text)) && text@ == error@)
            &&& fields@.len() == 0 || fields@ == seq![Field::Data(data)] ==> r == Err::<
                MpvResult,
                ResponseError,
            >(ResponseError::MissingError)
        }),
{
    reveal_with_fuel(data_in, 3);
    reveal_with_fuel(error_in, 3);
    let all = fields@;
    if all.len() == 1 {
        assert(all.drop_last() =~= Seq::empty());
    }
    if all.len() == 2 {
        assert(all.drop_last() =~= seq![all[0]]);
        assert(all.drop_last().drop_last() =~= Seq::empty());
    }
    if all == seq![Field::Data(data), Field::Error(Some(error))] || all == seq![
        Field::Error(Some(error)),
        Field::Data(data),
    ] || all == seq![Field::Error(Some(error))] || all == seq![Field::Data(data)] || all.len()
        == 0 {
        assert forall|i: int| 0 <= i < all.len() implies #[trigger] fault_at(all, i) is None by {
            if i == 1 {
                assert(!(all[0] is Data && all[1] is Data));
            }
        }
        assert(faultless(all, all.len() as int));
    }
}

/// An answer is refused for the first field that there is something wrong with: one of a
/// kind that was there before, or one that says how it went and is no string.
pub proof fn law_refused_for_the_first_fault(
    fields: Vec<Field>,
    i: int,
    r: Result<MpvResult, ResponseError>,
)
    requires
        call_ensures(deserialize_response_result, (&fields,), r),
        0 <= i < fields@.len(),
        forall|a: int, b: int|
            0 <= a < b < i ==> (#[trigger] fields@[a] is Data) != (#[trigger] fields@[b] is Data),
        forall|a: int| 0 <= a < i ==> #[trigger] fields@[a] != Field::Error(None),
    ensures
        fields@[i] is Data && (exists|j: int| 0 <= j < i && #[trigger] fields@[j] is Data) ==> r
            == Err::<MpvResult, ResponseError>(ResponseError::DuplicateData),
        fields@[i] is Error && (exists|j: int| 0 <= j < i && #[trigger] fields@[j] is Error) ==> r
            == Err::<MpvResult, ResponseError>(ResponseError::DuplicateError),
        fields@[i] == Field::Error(None) && (forall|j: int|
            0 <= j < i ==> #[trigger] fields@[j] is Data) ==> r == Err::<MpvResult, ResponseError>(
            ResponseError::UnreadableError,
        ),
{
    let all = fields@;
    assert forall|k: int| 0 <= k < i implies #[trigger] fault_at(all, k) is None by {
        assert(all[k] != Field::Error(None));
        assert forall|j: int| 0 <= j < k implies (#[trigger] all[j] is Data) != (all[k] is Data) by {}
    }
    assert(faultless(all, i));
    assert(fault_at(all, i) is Some || fault_at(all, i) is None);
}

/// A copy of an event is the event.
pub proof fn law_copies_of_events(event: Event, copy: Event)
    requires
        call_ensures(Event::clone, (&event,), copy),
    ensures
        copy == event,
{
}

} // verus!
