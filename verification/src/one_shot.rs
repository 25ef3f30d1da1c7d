//! A plan node over a stream that already exists. The stream can be taken
//! from the node once; after that the node is exhausted, and still knows its
//! schema and how to describe itself.

use std::sync::Arc;
use vstd::prelude::*;
use vstd::string::StringExecFns;
use arrow_schema::Schema;
use crate::error::Error;

verus! {

/// `arrow_schema::Schema`, read only through the two functions below.
#[verifier::external_type_specification]
#[verifier::external_body]
pub struct ExSchema(Schema);

/// The names of the top-level fields of a schema, in the schema's order.
pub uninterp spec fn schema_field_names(schema: Schema) -> Seq<Seq<char>>;

/// The length of `Schema::fields`: the number of top-level fields.
#[verifier::external_body]
fn field_count(schema: &Schema) -> (count: usize)
    ensures
        count == schema_field_names(*schema).len(),
{
    schema.fields().len()
}

/// `Field::name` of `Schema::field`, which panics where there is no field
/// with that index.
#[verifier::external_body]
fn field_name(schema: &Schema, index: usize) -> (name: &str)
    requires
        index < schema_field_names(*schema).len(),
    ensures
        name@ == schema_field_names(*schema)[index as int],
{
    schema.field(index).name().as_str()
}

/// The names in order, with a comma between each two.
pub open spec fn comma_joined(names: Seq<Seq<char>>) -> Seq<char>
    decreases names.len(),
{
    if names.len() == 0 {
        Seq::empty()
    } else if names.len() == 1 {
        names[0]
    } else {
        comma_joined(names.drop_last()) + ","@ + names.last()
    }
}

/// The line that describes a single-use node: whether it is exhausted, and
/// its columns.
pub open spec fn one_shot_line(exhausted: bool, columns: Seq<Seq<char>>) -> Seq<char> {
    "OneShotStream: "@ + (if exhausted {
        "EXHAUSTED"@
    } else {
        Seq::empty()
    }) + "columns=["@ + comma_joined(columns) + "]"@
}

/// A source node made from an existing stream of type `S`. It hands the
/// stream out once.
pub struct OneShotExec<S> {
    stream: Option<S>,
    schema: Arc<Schema>,
}

impl<S> OneShotExec<S> {
    /// The stream that the node still holds, if it has not been taken.
    pub closed spec fn available(&self) -> Option<S> {
        self.stream
    }

    /// The schema that the node was made with.
    pub closed spec fn spec_schema(&self) -> Schema {
        *self.schema
    }

    /// Whether the stream has been taken.
    pub open spec fn exhausted(&self) -> bool {
        self.available() is None
    }

    /// What one call of `execute` makes of the node `self`: the node after
    /// the call and what the call returns.
    pub open spec fn executes(&self, after: Self, taken: Result<S, Error>) -> bool {
        &&& after.exhausted()
        &&& after.spec_schema() == self.spec_schema()
        &&& match self.available() {
            Some(stream) => taken == Ok::<S, Error>(stream),
            None => taken == Err::<S, Error>(Error::Exhausted),
        }
    }

    /// Creates a node that holds `stream`, whose batches have `schema`.
    pub fn new(stream: S, schema: Arc<Schema>) -> (node: Self)
        ensures
            node.available() == Some(stream),
            node.spec_schema() == *schema,
    {
        OneShotExec { stream: Some(stream), schema }
    }

    /// Whether the stream has been taken.
    pub fn is_exhausted(&self) -> (exhausted: bool)
        ensures
            exhausted == self.exhausted(),
    {
        self.stream.is_none()
    }

    /// The schema of the stream, also after the stream has been taken.
    pub fn schema(&self) -> (schema: &Arc<Schema>)
        ensures
            **schema == self.spec_schema(),
    {
        &self.schema
    }

    /// Takes the stream out of the node. The node has one partition, so
    /// `partition` is zero. A second call finds the node exhausted.
    pub fn execute(&mut self, partition: usize) -> (taken: Result<S, Error>)
        requires
            partition == 0,
        ensures
            old(self).executes(*final(self), taken),
    {
        match self.stream.take() {
            Some(stream) => Ok(stream),
            None => Err(Error::Exhausted),
        }
    }

    /// One line that describes the node: `OneShotStream: `, then `EXHAUSTED`
    /// once the stream has been taken, then the column names.
    pub fn display(&self) -> (line: String)
        ensures
            line@ == one_shot_line(self.exhausted(), schema_field_names(self.spec_schema())),
    {
        let mut line = String::from_str("OneShotStream: ");
        if self.stream.is_none() {
            line.append("EXHAUSTED");
        }
        line.append("columns=[");
        let ghost head = line@;
        let ghost names = schema_field_names(self.spec_schema());
        let count = field_count(&self.schema);
        let mut i: usize = 0;
        while i < count
            invariant
                i <= count,
                count == names.len(),
                names == schema_field_names(*self.schema),
                line@ == head + comma_joined(names.take(i as int)),
            decreases count - i,
        {
            proof {
                assert(names.take(i + 1).drop_last() == names.take(i as int));
                assert(names.take(i + 1).last() == names[i as int]);
            }
            if i > 0 {
                line.append(",");
            }
            line.append(field_name(&self.schema, i));
            i = i + 1;
        }
        proof {
            assert(names.take(count as int) == names);
        }
        line.append("]");
        line
    }
}

/// A node is used once: the first call of `execute` hands out the very
/// stream that the node was made with, every later call finds it exhausted,
/// and the schema stays what it was throughout.
pub proof fn lemma_one_shot_is_single_use<S>(
    node: OneShotExec<S>,
    stream: S,
    after_first: OneShotExec<S>,
    first: Result<S, Error>,
    after_second: OneShotExec<S>,
    second: Result<S, Error>,
)
    requires
        node.available() == Some(stream),
        node.executes(after_first, first),
        after_first.executes(after_second, second),
    ensures
        first == Ok::<S, Error>(stream),
        second == Err::<S, Error>(Error::Exhausted),
        after_first.exhausted() && after_second.exhausted(),
        after_first.spec_schema() == node.spec_schema(),
        after_second.spec_schema() == node.spec_schema(),
        one_shot_line(after_second.exhausted(), schema_field_names(after_second.spec_schema()))
            == "OneShotStream: "@ + "EXHAUSTED"@ + "columns=["@ + comma_joined(
            schema_field_names(node.spec_schema()),
        ) + "]"@,
{
}

} // verus!
