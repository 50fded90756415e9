//! Where inputs come from, and the rules by which the inputs of the YCSB
//! workloads are made.
//!
//! A request is made in two steps. First it is drawn at random which
//! operation it is, which record it goes to and which values it writes; then
//! the request is made of what was drawn. The second step takes the draws as
//! plain values, so it says exactly what it makes. The generator draws with
//! its own random number generator, but for the record of a Zipfian request:
//! that one is drawn by the caller.

use rand::distributions::Alphanumeric;
use rand::rngs::StdRng;
use rand::Rng;
use rand_distr::Distribution;
use rand_distr::WeightedAliasIndex;
use vstd::prelude::*;
use vstd::string::StringExecFns;

verus! {

/// A lazy, finite sequence of inputs.
pub trait InputGenerator {
    type Input: Send;

    /// The next input, or `None` once there are no more.
    fn next(&mut self) -> Option<Self::Input>;

    /// Tears the generator down; called once, after the last call of `next`.
    fn close(self);
}

/// The character of a decimal digit.
pub open spec fn digit(d: nat) -> char {
    if d == 0 {
        '0'
    } else if d == 1 {
        '1'
    } else if d == 2 {
        '2'
    } else if d == 3 {
        '3'
    } else if d == 4 {
        '4'
    } else if d == 5 {
        '5'
    } else if d == 6 {
        '6'
    } else if d == 7 {
        '7'
    } else if d == 8 {
        '8'
    } else {
        '9'
    }
}

/// The decimal numeral of `n`, without leading zeros.
pub open spec fn decimal(n: nat) -> Seq<char>
    decreases n,
{
    if n < 10 {
        seq![digit(n)]
    } else {
        decimal(n / 10).push(digit(n % 10))
    }
}

/// The decimal numeral of `n`, with zeros in front until it is `width` long.
pub open spec fn zero_padded(n: nat, width: nat) -> Seq<char> {
    if decimal(n).len() >= width {
        decimal(n)
    } else {
        Seq::new((width - decimal(n).len()) as nat, |i: int| '0') + decimal(n)
    }
}

/// The key of the record with index `index`: `user` and the index in at
/// least eight digits.
pub open spec fn record_key_text(index: u32) -> Seq<char> {
    "user"@ + zero_padded(index as nat, 8)
}

/// The key of the field with number `i`: `field` and the number.
pub open spec fn field_key_text(i: u32) -> Seq<char> {
    "field"@ + decimal(i as nat)
}

/// A numeral has as many digits as it takes to write the number: one below
/// ten, and one more for each further power of ten.
pub proof fn lemma_decimal_len(n: nat)
    ensures
        decimal(n).len() >= 1,
        n < 10 ==> decimal(n).len() == 1,
        n >= 10 ==> decimal(n).len() == decimal(n / 10).len() + 1,
    decreases n,
{
    if n >= 10 {
        lemma_decimal_len(n / 10);
    }
}

fn digit_text(d: u32) -> (text: &'static str)
    requires
        d < 10,
    ensures
        text@ == seq![digit(d as nat)],
{
    proof {
        reveal_strlit("0");
        reveal_strlit("1");
        reveal_strlit("2");
        reveal_strlit("3");
        reveal_strlit("4");
        reveal_strlit("5");
        reveal_strlit("6");
        reveal_strlit("7");
        reveal_strlit("8");
        reveal_strlit("9");
    }
    if d == 0 {
        "0"
    } else if d == 1 {
        "1"
    } else if d == 2 {
        "2"
    } else if d == 3 {
        "3"
    } else if d == 4 {
        "4"
    } else if d == 5 {
        "5"
    } else if d == 6 {
        "6"
    } else if d == 7 {
        "7"
    } else if d == 8 {
        "8"
    } else {
        "9"
    }
}

fn push_decimal(text: &mut String, n: u32)
    ensures
        final(text)@ == old(text)@ + decimal(n as nat),
    decreases n,
{
    if n >= 10 {
        push_decimal(text, n / 10);
    }
    text.append(digit_text(n % 10));
}

fn decimal_len(n: u32) -> (len: usize)
    ensures
        len == decimal(n as nat).len(),
        1 <= len <= 10,
{
    proof {
        lemma_decimal_len(n as nat);
    }
    let mut len: usize = 1;
    let mut rest: u32 = n;
    while rest >= 10
        invariant
            len + decimal(rest as nat).len() == decimal(n as nat).len() + 1,
            1 <= len,
            len <= 10,
            len == 10 ==> rest < 10,
            len == 9 ==> rest < 100,
            len == 8 ==> rest < 1_000,
            len == 7 ==> rest < 10_000,
            len == 6 ==> rest < 100_000,
            len == 5 ==> rest < 1_000_000,
            len == 4 ==> rest < 10_000_000,
            len == 3 ==> rest < 100_000_000,
            len == 2 ==> rest < 1_000_000_000,
        decreases rest,
    {
        proof {
            lemma_decimal_len(rest as nat);
        }
        rest = rest / 10;
        len = len + 1;
    }
    proof {
        lemma_decimal_len(rest as nat);
    }
    len
}

fn push_zero_padded(text: &mut String, n: u32, width: usize)
    ensures
        final(text)@ == old(text)@ + zero_padded(n as nat, width as nat),
{
    let len = decimal_len(n);
    let ghost before = text@;
    let mut written: usize = len;
    while written < width
        invariant
            len == decimal(n as nat).len(),
            len <= written,
            len < width ==> written <= width,
            len >= width ==> written == len,
            text@ == before + Seq::new((written - len) as nat, |i: int| '0'),
        decreases width - written,
    {
        proof {
            reveal_strlit("0");
        }
        text.append("0");
        written = written + 1;
        assert(text@ =~= before + Seq::new((written - len) as nat, |i: int| '0'));
    }
    let ghost zeros = Seq::new((written - len) as nat, |i: int| '0');
    push_decimal(text, n);
    assert(text@ =~= before + (zeros + decimal(n as nat)));
    assert(len >= width ==> zeros + decimal(n as nat) =~= decimal(n as nat));
}

/// The key of the record with index `index`.
pub fn record_key(index: u32) -> (key: String)
    ensures
        key@ == record_key_text(index),
{
    let mut key = String::from_str("user");
    push_zero_padded(&mut key, index, 8);
    key
}

/// The standard random number generator of the `rand` crate, of which
/// nothing is known but that it can be drawn from.
#[verifier::external_type_specification]
#[verifier::external_body]
pub struct ExStdRng(StdRng);

/// Whether an operation can be drawn by these weights: there is at least one
/// weight, none is larger than the largest number divided by their count,
/// and not all are zero.
pub open spec fn weights_usable(weights: Seq<u32>) -> bool {
    &&& 0 < weights.len() <= u32::MAX
    &&& forall|i: int| 0 <= i < weights.len() ==> weights[i] <= (u32::MAX as nat) / weights.len()
    &&& exists|i: int| 0 <= i < weights.len() && weights[i] > 0
}

/// Whether a byte is an ASCII letter or digit.
pub open spec fn is_alphanumeric(byte: u8) -> bool {
    ||| 0x30 <= byte <= 0x39
    ||| 0x41 <= byte <= 0x5a
    ||| 0x61 <= byte <= 0x7a
}

/// Draws a position among `weights` with `rand_distr`: the alias table is
/// built by `WeightedAliasIndex::new` and one position is drawn from it by
/// its `sample`. The table is refused, and nothing drawn, exactly where the
/// documentation of `new` says so: for no weights, for a weight above the
/// largest number divided by the count, and for weights that are all zero.
/// Nothing is claimed of the position drawn.
#[verifier::external_body]
fn weighted_position(weights: Vec<u32>, rng: &mut StdRng) -> (position: Option<usize>)
    ensures
        position is Some <==> weights_usable(weights@),
{
    match WeightedAliasIndex::new(weights) {
        Ok(table) => Some(table.sample(rng)),
        Err(_) => None,
    }
}

/// Draws a number from zero to `high`, both included, with `Rng::gen_range`
/// of the `rand` crate.
#[verifier::external_body]
fn uniform_up_to(rng: &mut StdRng, high: u32) -> (drawn: u32)
    ensures
        drawn <= high,
{
    rng.gen_range(0..=high)
}

/// Draws one byte with `Rng::sample` of the `rand` crate from its
/// `Alphanumeric` distribution, which ranges over the ASCII letters and
/// digits.
#[verifier::external_body]
fn alphanumeric(rng: &mut StdRng) -> (drawn: u8)
    ensures
        is_alphanumeric(drawn),
{
    rng.sample(Alphanumeric)
}

/// Draws one byte as [`alphanumeric`] does, from the generator that
/// `rand::thread_rng` keeps for the running thread.
#[verifier::external_body]
fn thread_alphanumeric() -> (drawn: u8)
    ensures
        is_alphanumeric(drawn),
{
    rand::thread_rng().sample(Alphanumeric)
}

/// Appends one character with the standard library's `String::push`.
#[verifier::external_body]
fn push_char(text: &mut String, c: char)
    ensures
        final(text)@ == old(text)@.push(c),
{
    text.push(c);
}

/// A text of `len` letters and digits drawn from the generator of the
/// running thread.
pub fn random_string(len: usize) -> (text: String)
    ensures
        text@.len() == len,
        forall|i: int| 0 <= i < len ==> is_alphanumeric(#[trigger] text@[i] as u8),
{
    let mut text = String::new();
    let mut i: usize = 0;
    while i < len
        invariant
            i <= len,
            text@.len() == i,
            forall|j: int| 0 <= j < i ==> is_alphanumeric(#[trigger] text@[j] as u8),
        decreases len - i,
    {
        let byte = thread_alphanumeric();
        push_char(&mut text, byte as char);
        i = i + 1;
    }
    text
}

/// How the record of a request is chosen among the existing ones.
#[derive(Debug, Clone, Copy, PartialEq, Eq, Structural)]
pub enum RequestDistribution {
    /// Uniformly over the existing keys.
    Uniform,
    /// Weighted toward one end.
    Zipfian,
    /// The last one available.
    Latest,
}

/// One request of a YCSB workload.
#[derive(Debug)]
pub enum YcsbInput {
    /// Insert a new record.
    Insert { record_key: String, fields: Vec<(String, String)> },
    /// Update a record by replacing the value of one field.
    Update { record_key: String, field_key: String, field_value: String },
    /// Read a single field from the record.
    ReadSingle { record_key: String, field_key: String },
    /// Read all fields from a record.
    ReadAll { record_key: String },
    /// Scan records in order, starting at a chosen key.
    Scan { start_key: String, scan_length: u32 },
}

/// A request of a YCSB workload, as text.
pub enum YcsbText {
    /// Insert a new record.
    Insert { record_key: Seq<char>, fields: Seq<(Seq<char>, Seq<char>)> },
    /// Update a record by replacing the value of one field.
    Update { record_key: Seq<char>, field_key: Seq<char>, field_value: Seq<char> },
    /// Read a single field from the record.
    ReadSingle { record_key: Seq<char>, field_key: Seq<char> },
    /// Read all fields from a record.
    ReadAll { record_key: Seq<char> },
    /// Scan records in order, starting at a chosen key.
    Scan { start_key: Seq<char>, scan_length: u32 },
}

impl View for YcsbInput {
    type V = YcsbText;

    open spec fn view(&self) -> YcsbText {
        match *self {
            YcsbInput::Insert { record_key, fields } => YcsbText::Insert {
                record_key: record_key@,
                fields: Seq::new(fields@.len(), |i: int| (fields@[i].0@, fields@[i].1@)),
            },
            YcsbInput::Update { record_key, field_key, field_value } => YcsbText::Update {
                record_key: record_key@,
                field_key: field_key@,
                field_value: field_value@,
            },
            YcsbInput::ReadSingle { record_key, field_key } => YcsbText::ReadSingle {
                record_key: record_key@,
                field_key: field_key@,
            },
            YcsbInput::ReadAll { record_key } => YcsbText::ReadAll { record_key: record_key@ },
            YcsbInput::Scan { start_key, scan_length } => YcsbText::Scan {
                start_key: start_key@,
                scan_length,
            },
        }
    }
}

/// The kind of request that a drawn operation stands for.
#[derive(Debug, Clone, Copy, PartialEq, Eq, Structural)]
pub enum Operation {
    /// Read the first field of an existing record.
    ReadSingle,
    /// Read all fields of an existing record.
    ReadAll,
    /// Insert a new record.
    Insert,
    /// Update the first field of an existing record.
    Update,
}

/// The operation at position `index` of the weights, if there is one.
pub open spec fn operation_at(index: usize) -> Option<Operation> {
    if index == 0 {
        Some(Operation::ReadSingle)
    } else if index == 1 {
        Some(Operation::ReadAll)
    } else if index == 2 {
        Some(Operation::Insert)
    } else if index == 3 {
        Some(Operation::Update)
    } else {
        None
    }
}

/// What was drawn at random for one input.
pub struct YcsbDraw {
    /// The position drawn among the weights.
    pub operation: usize,
    /// The index drawn for a request to an existing record.
    pub record: u32,
    /// The field values drawn, one for each field that the request writes.
    pub values: Vec<String>,
}

/// The rules by which the inputs of the YCSB workloads are made.
pub struct YcsbInputGenerator {
    pub read_weight: u32,
    pub scan_weight: u32,
    pub insert_weight: u32,
    pub update_weight: u32,
    pub read_all_fields: bool,
    pub fields_per_record: u32,
    pub field_value_length: usize,
    pub operation_rng: StdRng,
    pub max_record_index: u32,
    pub request_distribution: RequestDistribution,
}

impl YcsbInputGenerator {
    /// The index of the existing record that a request goes to, given the
    /// index that was drawn: the latest record if that is asked for, else
    /// the drawn one.
    pub open spec fn existing_index(self, drawn: u32) -> u32 {
        match self.request_distribution {
            RequestDistribution::Latest => self.max_record_index,
            _ => drawn,
        }
    }

    /// How many field values the request of a drawn operation writes.
    pub open spec fn values_needed(self, operation: usize) -> nat {
        match operation_at(operation) {
            Some(Operation::Insert) => self.fields_per_record as nat,
            Some(Operation::Update) => 1,
            _ => 0,
        }
    }

    /// Whether the request of a drawn operation needs a record to be drawn.
    pub open spec fn record_needed(self, operation: usize) -> bool {
        &&& operation_at(operation) is Some
        &&& operation_at(operation) != Some(Operation::Insert)
        &&& self.request_distribution != RequestDistribution::Latest
    }

    /// The rules after the request of a drawn operation has been made: an
    /// insert moves on to the next record index, nothing else changes.
    pub open spec fn after(self, operation: usize) -> YcsbInputGenerator {
        if operation_at(operation) == Some(Operation::Insert) {
            YcsbInputGenerator { max_record_index: (self.max_record_index + 1) as u32, ..self }
        } else {
            self
        }
    }

    /// The request made of what was drawn, as text.
    pub open spec fn request(self, operation: usize, record: u32, values: Seq<Seq<char>>) -> Option<
        YcsbText,
    > {
        match operation_at(operation) {
            Some(Operation::ReadSingle) => Some(
                YcsbText::ReadSingle {
                    record_key: record_key_text(self.existing_index(record)),
                    field_key: field_key_text(0),
                },
            ),
            Some(Operation::ReadAll) => Some(
                YcsbText::ReadAll { record_key: record_key_text(self.existing_index(record)) },
            ),
            Some(Operation::Insert) => Some(
                YcsbText::Insert {
                    record_key: record_key_text((self.max_record_index + 1) as u32),
                    fields: Seq::new(
                        values.len(),
                        |i: int| (field_key_text(i as u32), values[i]),
                    ),
                },
            ),
            Some(Operation::Update) => Some(
                YcsbText::Update {
                    record_key: record_key_text(self.existing_index(record)),
                    field_key: field_key_text(0),
                    field_value: values[0],
                },
            ),
            None => None,
        }
    }

    /// The weights of the operations as a sequence.
    pub open spec fn weights_of(self) -> Seq<u32> {
        seq![self.read_weight, self.scan_weight, self.insert_weight, self.update_weight]
    }

    /// These rules with another state of the random number generator.
    pub open spec fn drawn_from(self, rng: StdRng) -> YcsbInputGenerator {
        YcsbInputGenerator { operation_rng: rng, ..self }
    }

    /// Draws the position of the next operation among the weights. Nothing
    /// is drawn where the weights cannot be used: that is the one case in
    /// which there is no position.
    pub fn draw_operation(&mut self) -> (position: Option<usize>)
        ensures
            position is Some <==> weights_usable(old(self).weights_of()),
            *final(self) == old(self).drawn_from(final(self).operation_rng),
    {
        let weights = self.weights();
        weighted_position(weights, &mut self.operation_rng)
    }

    /// Draws the index of an existing record: any index up to the latest for
    /// a uniform request, the latest one where that is asked for. The record
    /// of a Zipfian request is not drawn here.
    pub fn draw_record(&mut self) -> (drawn: Option<u32>)
        ensures
            drawn is None <==> old(self).request_distribution == RequestDistribution::Zipfian,
            drawn matches Some(index) ==> index <= old(self).max_record_index,
            old(self).request_distribution == RequestDistribution::Latest ==> drawn == Some(
                old(self).max_record_index,
            ),
            *final(self) == old(self).drawn_from(final(self).operation_rng),
    {
        match self.request_distribution {
            RequestDistribution::Zipfian => None,
            RequestDistribution::Uniform => Some(
                uniform_up_to(&mut self.operation_rng, self.max_record_index),
            ),
            RequestDistribution::Latest => Some(self.max_record_index),
        }
    }

    /// Draws a field value: as many letters and digits as a value is long.
    pub fn field_value(&mut self) -> (value: String)
        ensures
            value@.len() == old(self).field_value_length,
            forall|i: int| 0 <= i < value@.len() ==> is_alphanumeric(#[trigger] value@[i] as u8),
            *final(self) == old(self).drawn_from(final(self).operation_rng),
    {
        let mut value = String::new();
        let mut i: usize = 0;
        while i < self.field_value_length
            invariant
                i <= self.field_value_length,
                value@.len() == i,
                forall|j: int| 0 <= j < i ==> is_alphanumeric(#[trigger] value@[j] as u8),
                *self == old(self).drawn_from(self.operation_rng),
            decreases self.field_value_length - i,
        {
            let byte = alphanumeric(&mut self.operation_rng);
            push_char(&mut value, byte as char);
            i = i + 1;
        }
        value
    }

    /// The weights of the operations, in the order in which they are drawn:
    /// read, scan, insert, update.
    pub fn weights(&self) -> (weights: Vec<u32>)
        ensures
            weights@ == self.weights_of(),
    {
        let mut weights = Vec::new();
        weights.push(self.read_weight);
        weights.push(self.scan_weight);
        weights.push(self.insert_weight);
        weights.push(self.update_weight);
        weights
    }

    /// The operation at position `index` of the weights, if there is one.
    pub fn operation(index: usize) -> (operation: Option<Operation>)
        ensures
            operation == operation_at(index),
    {
        if index == 0 {
            Some(Operation::ReadSingle)
        } else if index == 1 {
            Some(Operation::ReadAll)
        } else if index == 2 {
            Some(Operation::Insert)
        } else if index == 3 {
            Some(Operation::Update)
        } else {
            None
        }
    }

    /// How many field values the request of a drawn operation writes.
    pub fn values_for(&self, operation: usize) -> (count: usize)
        ensures
            count == self.values_needed(operation),
    {
        match Self::operation(operation) {
            Some(Operation::Insert) => self.fields_per_record as usize,
            Some(Operation::Update) => 1,
            _ => 0,
        }
    }

    /// Whether the request of a drawn operation needs a record to be drawn.
    pub fn needs_record(&self, operation: usize) -> (needed: bool)
        ensures
            needed == self.record_needed(operation),
    {
        let latest = match self.request_distribution {
            RequestDistribution::Latest => true,
            _ => false,
        };
        match Self::operation(operation) {
            Some(Operation::Insert) => false,
            Some(_) => !latest,
            None => false,
        }
    }

    /// Moves on to the next record index and gives its key.
    pub fn new_record_key(&mut self) -> (key: String)
        requires
            old(self).max_record_index < u32::MAX,
        ensures
            *final(self) == (YcsbInputGenerator {
                max_record_index: (old(self).max_record_index + 1) as u32,
                ..*old(self)
            }),
            key@ == record_key_text(final(self).max_record_index),
    {
        self.max_record_index = self.max_record_index + 1;
        record_key(self.max_record_index)
    }

    /// The key of the existing record that a request goes to, given the index
    /// that was drawn.
    pub fn existing_record_key(&self, drawn: u32) -> (key: String)
        ensures
            key@ == record_key_text(self.existing_index(drawn)),
    {
        let index = match self.request_distribution {
            RequestDistribution::Latest => self.max_record_index,
            _ => drawn,
        };
        record_key(index)
    }

    /// The key of the field with number `i`.
    pub fn field_key(i: u32) -> (key: String)
        ensures
            key@ == field_key_text(i),
    {
        let mut key = String::from_str("field");
        push_decimal(&mut key, i);
        key
    }

    /// Makes the request of what was drawn: a read of the first field or of
    /// all fields of an existing record, an insert of a new record with one
    /// field for each value, or an update of the first field of an existing
    /// record. A position beyond the four weights makes no request.
    pub fn next_from(&mut self, draw: YcsbDraw) -> (input: Option<YcsbInput>)
        requires
            draw.values@.len() == old(self).values_needed(draw.operation),
            operation_at(draw.operation) == Some(Operation::Insert) ==> old(self).max_record_index
                < u32::MAX,
        ensures
            *final(self) == old(self).after(draw.operation),
            match input {
                Some(made) => Some(made@),
                None => None,
            } == old(self).request(
                draw.operation,
                draw.record,
                Seq::new(draw.values@.len(), |i: int| draw.values@[i]@),
            ),
    {
        match Self::operation(draw.operation) {
            Some(Operation::ReadSingle) => Some(
                YcsbInput::ReadSingle {
                    record_key: self.existing_record_key(draw.record),
                    field_key: Self::field_key(0),
                },
            ),
            Some(Operation::ReadAll) => Some(
                YcsbInput::ReadAll { record_key: self.existing_record_key(draw.record) },
            ),
            Some(Operation::Insert) => {
                let record_key = self.new_record_key();
                let mut fields: Vec<(String, String)> = Vec::new();
                let mut i: usize = 0;
                while i < draw.values.len()
                    invariant
                        i <= draw.values@.len() <= u32::MAX,
                        fields@.len() == i,
                        forall|j: int|
                            0 <= j < i ==> (#[trigger] fields@[j]).0@ == field_key_text(j as u32)
                                && fields@[j].1@ == draw.values@[j]@,
                    decreases draw.values@.len() - i,
                {
                    let key = Self::field_key(i as u32);
                    let value = draw.values[i].clone();
                    fields.push((key, value));
                    i = i + 1;
                }
                let made = YcsbInput::Insert { record_key, fields };
                proof {
                    let texts = Seq::new(draw.values@.len(), |i: int| draw.values@[i]@);
                    assert(made@->Insert_fields =~= Seq::new(
                        texts.len(),
                        |i: int| (field_key_text(i as u32), texts[i]),
                    ));
                }
                Some(made)
            },
            Some(Operation::Update) => Some(
                YcsbInput::Update {
                    record_key: self.existing_record_key(draw.record),
                    field_key: Self::field_key(0),
                    field_value: draw.values[0].clone(),
                },
            ),
            None => None,
        }
    }
}

} // verus!
