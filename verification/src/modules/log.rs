//! The chat log: the SQL that stores a group's messages, one table per
//! group.
use vstd::prelude::*;
use crate::text::{int_text, push_char, push_i64};

verus! {

/// One logged message.
#[derive(Debug)]
pub struct MsgLog {
    pub id: i64,
    pub time: String,
    pub sender_id: i64,
    pub msg: String,
}

/// The model of a [`MsgLog`].
pub struct MsgLogView {
    pub id: i64,
    pub time: Seq<char>,
    pub sender_id: i64,
    pub msg: Seq<char>,
}

impl View for MsgLog {
    type V = MsgLogView;

    open spec fn view(&self) -> MsgLogView {
        MsgLogView { id: self.id, time: self.time@, sender_id: self.sender_id, msg: self.msg@ }
    }
}

/// Something that can be logged.
pub trait Log {
    /// Whether `l` is the log entry of `self`. A loggable type states its
    /// entry by defining this; by default it states nothing of it.
    open spec fn logs(&self, l: MsgLogView) -> bool {
        true
    }

    /// The log entry of `self`.
    fn to_log(&self) -> (r: MsgLog)
        ensures
            self.logs(r@),
    ;
}

/// An SQL statement, and the words printed before the database's error
/// when it fails.
#[derive(Debug)]
pub struct SqlStep {
    pub sql: String,
    pub on_error: String,
}

/// The statement that creates the log table of group `id`.
pub open spec fn create_table_sql(id: i64) -> Seq<char> {
    "CREATE TABLE '"@ + int_text(id as int)
        + "' (time TEXT PRIMARY KEY NOT NULL, sender_id NUMERIC NOT NULL, message TEXT NOT NULL);"@
}

/// The statement that tells whether the log table of group `id` exists.
pub open spec fn probe_table_sql(id: i64) -> Seq<char> {
    "SELECT * FROM '"@ + int_text(id as int) + "'"@
}

/// `s` as the inside of an SQL text literal: each `'` doubled.
pub open spec fn sql_escaped(s: Seq<char>) -> Seq<char>
    decreases s.len(),
{
    if s.len() == 0 {
        Seq::empty()
    } else {
        sql_escaped(s.drop_last()) + if s.last() == '\'' {
            seq!['\'', '\'']
        } else {
            seq![s.last()]
        }
    }
}

/// The text the inside `t` of an SQL text literal stands for: each `''`
/// is one `'`; `None` where a lone `'` would end the literal.
pub open spec fn sql_unescaped(t: Seq<char>) -> Option<Seq<char>>
    decreases t.len(),
{
    if t.len() == 0 {
        Some(Seq::empty())
    } else if t.last() != '\'' {
        match sql_unescaped(t.drop_last()) {
            Some(u) => Some(u.push(t.last())),
            None => None,
        }
    } else if t.len() >= 2 && t[t.len() - 2] == '\'' {
        match sql_unescaped(t.take(t.len() - 2)) {
            Some(u) => Some(u.push('\'')),
            None => None,
        }
    } else {
        None
    }
}

/// Escaped text stands for exactly the text it came from: no quote in a
/// logged time or message ends its literal early.
pub proof fn law_sql_escape_reads_back(s: Seq<char>)
    ensures
        sql_unescaped(sql_escaped(s)) == Some(s),
    decreases s.len(),
{
    if s.len() > 0 {
        let p = s.drop_last();
        law_sql_escape_reads_back(p);
        let e = sql_escaped(p);
        let t = sql_escaped(s);
        if s.last() == '\'' {
            assert(t =~= e + seq!['\'', '\'']);
            assert(t.take(t.len() - 2) =~= e);
        } else {
            assert(t =~= e + seq![s.last()]);
            assert(t.drop_last() =~= e);
        }
        assert(p.push(s.last()) =~= s);
    }
}

/// Appends `s` escaped for the inside of an SQL text literal.
fn push_sql_escaped(out: &mut String, s: &str)
    ensures
        final(out)@ == old(out)@ + sql_escaped(s@),
{
    let ghost before = out@;
    let n = s.unicode_len();
    let mut i: usize = 0;
    assert(s@.take(0) =~= Seq::<char>::empty());
    assert(before + Seq::<char>::empty() =~= before);
    while i < n
        invariant
            n == s@.len(),
            0 <= i <= n,
            out@ == before + sql_escaped(s@.take(i as int)),
        decreases n - i,
    {
        let c = s.get_char(i);
        proof {
            assert(s@.take(i + 1).drop_last() =~= s@.take(i as int));
            assert(s@.take(i + 1).last() == c);
        }
        if c == '\'' {
            push_char(out, '\'');
            push_char(out, '\'');
            assert(out@ =~= before + sql_escaped(s@.take(i + 1)));
        } else {
            push_char(out, c);
            assert(out@ =~= before + sql_escaped(s@.take(i + 1)));
        }
        i = i + 1;
    }
    assert(s@.take(n as int) =~= s@);
}

/// The statement that stores the entry `l` in its group's table, its time
/// and message escaped inside their quotes.
pub open spec fn insert_log_sql(l: MsgLogView) -> Seq<char> {
    "INSERT INTO '"@ + int_text(l.id as int) + "' (time, sender_id, message) VALUES ('"@
        + sql_escaped(l.time) + "', '"@ + int_text(l.sender_id as int) + "', '"@ + sql_escaped(l.msg)
        + "')"@
}

/// Creating the log table of group `id`.
pub fn create_group_table(id: i64) -> (r: SqlStep)
    ensures
        r.sql@ == create_table_sql(id),
        r.on_error@ == "写入日志失败："@,
{
    let mut sql = String::from_str("CREATE TABLE '");
    push_i64(&mut sql, id);
    sql.append("' (time TEXT PRIMARY KEY NOT NULL, sender_id NUMERIC NOT NULL, message TEXT NOT NULL);");
    SqlStep { sql, on_error: String::from_str("写入日志失败：") }
}

/// What logging one message takes: a probe for its group's table, the
/// creation of that table, and the insertion of the entry.
#[derive(Debug)]
pub struct LogPlan {
    pub entry: MsgLog,
    pub probe: String,
    pub create: SqlStep,
    pub insert: SqlStep,
}

impl LogPlan {
    /// The statements to run, in order, once the probe has told whether
    /// the table exists: the creation where it does not, then the
    /// insertion.
    pub fn steps(self, table_exists: bool) -> (r: Vec<SqlStep>)
        ensures
            table_exists ==> r@.len() == 1 && r@[0] == self.insert,
            !table_exists ==> r@.len() == 2 && r@[0] == self.create && r@[1] == self.insert,
    {
        let mut v: Vec<SqlStep> = Vec::new();
        if !table_exists {
            v.push(self.create);
        }
        v.push(self.insert);
        v
    }
}

/// The plan for logging `msg`, for the entry its `to_log` gives.
pub fn add_log<T: Log>(msg: &T) -> (r: LogPlan)
    ensures
        msg.logs(r.entry@),
        r.probe@ == probe_table_sql(r.entry.id),
        r.create.sql@ == create_table_sql(r.entry.id),
        r.create.on_error@ == "写入日志失败："@,
        r.insert.sql@ == insert_log_sql(r.entry@),
        r.insert.on_error@ == "写入日志失败:"@,
{
    let l = msg.to_log();
    let mut probe = String::from_str("SELECT * FROM '");
    push_i64(&mut probe, l.id);
    probe.append("'");
    let mut ins = String::from_str("INSERT INTO '");
    push_i64(&mut ins, l.id);
    ins.append("' (time, sender_id, message) VALUES ('");
    push_sql_escaped(&mut ins, l.time.as_str());
    ins.append("', '");
    push_i64(&mut ins, l.sender_id);
    ins.append("', '");
    push_sql_escaped(&mut ins, l.msg.as_str());
    ins.append("')");
    let create = create_group_table(l.id);
    LogPlan {
        entry: l,
        probe,
        create,
        insert: SqlStep { sql: ins, on_error: String::from_str("写入日志失败:") },
    }
}

} // verus!
