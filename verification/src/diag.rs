use vstd::prelude::*;

verus! {

/// Severity of a diagnostic record.
#[derive(Clone, Copy, PartialEq, Eq, Structural, Debug)]
pub enum LogLevel {
    Info,
    Warn,
    Error,
}

/// A diagnostic line destined for the application's textual log stream.
pub struct LogRecord {
    pub level: LogLevel,
    pub message: String,
}

/// Mathematical model of a diagnostic record.
pub struct RecordModel {
    pub level: LogLevel,
    pub message: Seq<char>,
}

impl View for LogRecord {
    type V = RecordModel;

    open spec fn view(&self) -> RecordModel {
        RecordModel { level: self.level, message: self.message@ }
    }
}

/// How many records of `models` sit at severity `level`.
pub open spec fn count_level(models: Seq<RecordModel>, level: LogLevel) -> nat
    decreases models.len(),
{
    if models.len() == 0 {
        0
    } else {
        count_level(models.drop_last(), level) + if models.last().level == level {
            1nat
        } else {
            0nat
        }
    }
}

/// Counting distributes over concatenation of record sequences.
pub proof fn lemma_count_level_add(a: Seq<RecordModel>, b: Seq<RecordModel>, level: LogLevel)
    ensures
        count_level(a + b, level) == count_level(a, level) + count_level(b, level),
    decreases b.len(),
{
    if b.len() == 0 {
        assert(a + b =~= a);
    } else {
        lemma_count_level_add(a, b.drop_last(), level);
        assert((a + b).drop_last() =~= a + b.drop_last());
        assert((a + b).last() == b.last());
    }
}

/// A sequence whose records all sit at one severity counts zero at any other.
pub proof fn lemma_count_level_uniform(models: Seq<RecordModel>, at: LogLevel, level: LogLevel)
    requires
        forall|i: int| 0 <= i < models.len() ==> models[i].level == at,
        level != at,
    ensures
        count_level(models, level) == 0,
    decreases models.len(),
{
    if models.len() > 0 {
        lemma_count_level_uniform(models.drop_last(), at, level);
    }
}

/// Counts the records of `records` whose severity is `level`.
pub fn count_records_at(records: &Vec<LogRecord>, level: LogLevel) -> (n: usize)
    ensures
        n == count_level(records@.map_values(|r: LogRecord| r@), level),
{
    let ghost models = records@.map_values(|r: LogRecord| r@);
    let mut n: usize = 0;
    let mut i: usize = 0;
    while i < records.len()
        invariant
            i <= records.len(),
            models == records@.map_values(|r: LogRecord| r@),
            models.len() == records@.len(),
            n == count_level(models.take(i as int), level),
            n <= i,
        decreases records.len() - i,
    {
        proof {
            assert(models.take(i + 1 as int).drop_last() =~= models.take(i as int));
            assert(models.take(i + 1 as int).last() == models[i as int]);
            assert(models[i as int] == records@[i as int]@);
        }
        if records[i].level == level {
            n = n + 1;
        }
        i = i + 1;
    }
    proof {
        assert(models.take(records@.len() as int) =~= models);
    }
    n
}

} // verus!
