//! Quality gate: A-F grading of dimension reports by hard rules.
use vstd::prelude::*;
use vstd::string::StringExecFns;
use crate::analysis::engine::{dimension_key, AnalysisDimension};
use crate::text::{
    all_ws, contains_seq, contains_str, count_matches, count_matches_from, decimal_digits, joined,
    lemma_joined_push, occurs_at, to_chars, trim_range, u64_text,
};

verus! {

/// Quality grade of a dimension report.
#[derive(Debug, Clone, Copy, PartialEq, Eq, Hash, Structural)]
pub enum QualityGrade {
    A,
    B,
    C,
    D,
    F,
}

/// Grade of an integer quality score: A from 90, B from 75, C from 60, D from 40, else F.
pub open spec fn grade_of_points(score: int) -> QualityGrade {
    if score >= 90 {
        QualityGrade::A
    } else if score >= 75 {
        QualityGrade::B
    } else if score >= 60 {
        QualityGrade::C
    } else if score >= 40 {
        QualityGrade::D
    } else {
        QualityGrade::F
    }
}

/// A grade with its description.
pub open spec fn grade_text(g: QualityGrade) -> Seq<char> {
    match g {
        QualityGrade::A => "A (优秀)"@,
        QualityGrade::B => "B (良好)"@,
        QualityGrade::C => "C (合格)"@,
        QualityGrade::D => "D (较差)"@,
        QualityGrade::F => "F (不合格)"@,
    }
}

/// A failing grade: D or F.
pub open spec fn is_failing(g: QualityGrade) -> bool {
    g == QualityGrade::D || g == QualityGrade::F
}

/// The confidence a grade contributes, in tenths.
pub open spec fn grade_tenths(g: QualityGrade) -> nat {
    match g {
        QualityGrade::A => 10,
        QualityGrade::B => 8,
        QualityGrade::C => 6,
        QualityGrade::D => 3,
        QualityGrade::F => 0,
    }
}

impl QualityGrade {
    /// The grade with its description.
    pub fn display(&self) -> (r: &'static str)
        ensures
            r@ == grade_text(*self),
    {
        match self {
            Self::A => "A (优秀)",
            Self::B => "B (良好)",
            Self::C => "C (合格)",
            Self::D => "D (较差)",
            Self::F => "F (不合格)",
        }
    }

    /// Acceptable quality: A, B or C.
    pub fn is_acceptable(&self) -> (r: bool)
        ensures
            r == (*self == QualityGrade::A || *self == QualityGrade::B || *self == QualityGrade::C),
    {
        match self {
            Self::A | Self::B | Self::C => true,
            _ => false,
        }
    }

    /// The report's weight should be lowered: D or F.
    pub fn should_downgrade_weight(&self) -> (r: bool)
        ensures
            r == (*self == QualityGrade::D || *self == QualityGrade::F),
    {
        match self {
            Self::D | Self::F => true,
            _ => false,
        }
    }

    /// The confidence a grade contributes, in tenths: A 10, B 8, C 6, D 3, F 0.
    pub fn confidence_tenths(&self) -> (r: u32)
        ensures
            r == grade_tenths(*self),
    {
        match self {
            Self::A => 10,
            Self::B => 8,
            Self::C => 6,
            Self::D => 3,
            Self::F => 0,
        }
    }

    /// The grade of an integer quality score.
    pub fn from_points(score: i64) -> (r: Self)
        ensures
            r == grade_of_points(score as int),
    {
        if score >= 90 {
            Self::A
        } else if score >= 75 {
            Self::B
        } else if score >= 60 {
            Self::C
        } else if score >= 40 {
            Self::D
        } else {
            Self::F
        }
    }
}

/// Markers of a report written after a failed data fetch.
pub open spec fn failure_markers() -> Seq<Seq<char>> {
    seq![
        "无法获取"@,
        "I cannot retrieve"@,
        "unable to fetch"@,
        "工具调用失败"@,
        "获取数据失败"@,
        "网络错误"@,
        "request failed"@,
    ]
}

/// The summary holds one of the failure markers.
pub open spec fn has_failure_marker(s: Seq<char>) -> bool {
    exists|i: int| 0 <= i < failure_markers().len() && contains_seq(s, #[trigger] failure_markers()[i])
}

/// The marker of a missing data point.
pub open spec fn missing_marker() -> Seq<char> {
    "[数据缺失"@
}

/// The hard-check grade of a report summary:
/// F when blank; D when it holds a failure marker or is under 50 characters long;
/// C with three or more missing-data markers; B with some missing data, or without a
/// summary table (a `|` and a `---`); A otherwise.
pub open spec fn hard_check_grade(s: Seq<char>) -> QualityGrade {
    let missing = count_matches_from(s, missing_marker(), 0);
    if all_ws(s) {
        QualityGrade::F
    } else if has_failure_marker(s) || s.len() < 50 {
        QualityGrade::D
    } else if missing >= 3 {
        QualityGrade::C
    } else if missing > 0 {
        QualityGrade::B
    } else if !(contains_seq(s, "|"@) && contains_seq(s, "---"@)) {
        QualityGrade::B
    } else {
        QualityGrade::A
    }
}

/// Grades a dimension report summary by the hard rules (no LLM call).
pub fn hard_check_summary(summary: &str) -> (r: QualityGrade)
    ensures
        r == hard_check_grade(summary@),
{
    let s = to_chars(summary);
    let (a, b) = trim_range(&s);
    if a == b {
        return QualityGrade::F;
    }
    let m0 = contains_str(&s, "无法获取");
    let m1 = contains_str(&s, "I cannot retrieve");
    let m2 = contains_str(&s, "unable to fetch");
    let m3 = contains_str(&s, "工具调用失败");
    let m4 = contains_str(&s, "获取数据失败");
    let m5 = contains_str(&s, "网络错误");
    let m6 = contains_str(&s, "request failed");
    proof {
        let ms = failure_markers();
        if has_failure_marker(s@) {
            let i = choose|i: int| 0 <= i < ms.len() && contains_seq(s@, #[trigger] ms[i]);
            assert(m0 || m1 || m2 || m3 || m4 || m5 || m6);
        }
        if m0 { assert(contains_seq(s@, ms[0])); }
        if m1 { assert(contains_seq(s@, ms[1])); }
        if m2 { assert(contains_seq(s@, ms[2])); }
        if m3 { assert(contains_seq(s@, ms[3])); }
        if m4 { assert(contains_seq(s@, ms[4])); }
        if m5 { assert(contains_seq(s@, ms[5])); }
        if m6 { assert(contains_seq(s@, ms[6])); }
    }
    if m0 || m1 || m2 || m3 || m4 || m5 || m6 {
        return QualityGrade::D;
    }
    if s.len() < 50 {
        return QualityGrade::D;
    }
    proof {
        reveal_strlit("[数据缺失");
    }
    let missing = count_matches(&s, "[数据缺失");
    if missing >= 3 {
        return QualityGrade::C;
    }
    if missing > 0 {
        return QualityGrade::B;
    }
    let has_table = contains_str(&s, "|") && contains_str(&s, "---");
    if !has_table {
        return QualityGrade::B;
    }
    QualityGrade::A
}

/// A grade table as the quality gate keeps it: each name with its grade, in the order the
/// names were first recorded.
pub open spec fn table_of(v: Seq<(String, QualityGrade)>) -> Seq<(Seq<char>, QualityGrade)> {
    v.map_values(|e: (String, QualityGrade)| (e.0@, e.1))
}

/// No name occurs twice in the table.
pub open spec fn names_distinct(t: Seq<(Seq<char>, QualityGrade)>) -> bool {
    forall|i: int, j: int| 0 <= i < t.len() && 0 <= j < t.len() && i != j ==> t[i].0 != t[j].0
}

/// The table has an entry under name `k`.
pub open spec fn has_name(t: Seq<(Seq<char>, QualityGrade)>, k: Seq<char>) -> bool {
    exists|i: int| 0 <= i < t.len() && t[i].0 == k
}

/// The table after recording grade `g` under name `k`, as a map insert does it: the entry
/// under that name takes the new grade where there is one; else the pair is appended.
pub open spec fn with_grade(t: Seq<(Seq<char>, QualityGrade)>, k: Seq<char>, g: QualityGrade) -> Seq<
    (Seq<char>, QualityGrade),
> {
    if has_name(t, k) {
        let i = choose|i: int| 0 <= i < t.len() && t[i].0 == k;
        t.update(i, (k, g))
    } else {
        t.push((k, g))
    }
}

/// Records `grade` under `name` in the table.
pub fn record_grade(table: &mut Vec<(String, QualityGrade)>, name: String, grade: QualityGrade)
    requires
        names_distinct(table_of(old(table)@)),
    ensures
        table_of(final(table)@) == with_grade(table_of(old(table)@), name@, grade),
        names_distinct(table_of(final(table)@)),
{
    let ghost t0 = table_of(table@);
    let mut i: usize = 0;
    while i < table.len()
        invariant
            i <= table.len(),
            table@ == old(table)@,
            t0 == table_of(table@),
            names_distinct(t0),
            forall|j: int| 0 <= j < i ==> t0[j].0 != name@,
        decreases table.len() - i,
    {
        if table[i].0 == name {
            proof {
                assert(t0[i as int].0 == name@);
                assert(has_name(t0, name@));
                let c = choose|c: int| 0 <= c < t0.len() && t0[c].0 == name@;
                assert(c == i);
            }
            table.set(i, (name, grade));
            proof {
                assert(table_of(table@) =~= t0.update(i as int, (name@, grade)));
            }
            return;
        }
        i += 1;
    }
    proof {
        assert(!has_name(t0, name@));
    }
    table.push((name, grade));
    proof {
        assert(table_of(table@) =~= t0.push((name@, grade)));
    }
}


/// The grade table of a run of reports (dimension, summary): each report's hard-check grade
/// recorded under the dimension's name, in report order.
pub open spec fn graded_table(reports: Seq<(AnalysisDimension, String)>) -> Seq<(Seq<char>, QualityGrade)>
    decreases reports.len(),
{
    if reports.len() == 0 {
        Seq::empty()
    } else {
        let r = reports.last();
        with_grade(graded_table(reports.drop_last()), dimension_key(r.0), hard_check_grade(r.1@))
    }
}

/// The reports whose hard-check grade fails, in report order.
pub open spec fn failed_reports(reports: Seq<(AnalysisDimension, String)>) -> Seq<(AnalysisDimension, String)>
    decreases reports.len(),
{
    if reports.len() == 0 {
        Seq::empty()
    } else {
        let rest = failed_reports(reports.drop_last());
        if is_failing(hard_check_grade(reports.last().1@)) {
            rest.push(reports.last())
        } else {
            rest
        }
    }
}

/// An LLM review of the failed reports is due when one to three of them failed.
pub open spec fn review_due(failed_count: nat) -> bool {
    0 < failed_count <= 3
}

/// The opening of the review request.
pub open spec fn review_header() -> Seq<char> {
    "你是分析质量审核员。以下维度的分析报告未通过硬检查规则。\n\n"@
}

/// The questions that close the review request.
pub open spec fn review_footer() -> Seq<char> {
    "请评估：\n1. 这些失败的报告是否仍有部分有价值信息？（是/否）\n2. 失败原因是什么？（数据缺失/工具失败/格式问题/其他）\n3. 是否建议继续进行综合决策？（继续/跳过）\n\n请用2-4句话简洁回答。"@
}

/// The block of the `ordinal`-th failed report in the review request.
pub open spec fn review_block(d: AnalysisDimension, ordinal: nat, summary: Seq<char>) -> Seq<char> {
    "--- 维度 "@ + dimension_key(d) + " (第"@ + decimal_digits(ordinal) + "个失败) ---\n"@ + summary
        + "\n\n"@
}

/// The blocks of all failed reports, numbered from 1.
pub open spec fn review_blocks(failed: Seq<(AnalysisDimension, String)>) -> Seq<char>
    decreases failed.len(),
{
    if failed.len() == 0 {
        Seq::empty()
    } else {
        review_blocks(failed.drop_last()) + review_block(
            failed.last().0,
            failed.len(),
            failed.last().1@,
        )
    }
}

/// The review request for the failed reports.
pub open spec fn review_prompt_text(failed: Seq<(AnalysisDimension, String)>) -> Seq<char> {
    review_header() + review_blocks(failed) + review_footer()
}

/// The request that asks an LLM whether failed reports are still of use: a header, one
/// block per failed report (its dimension, its number, its summary), and the questions.
pub fn review_prompt(failed: &Vec<(AnalysisDimension, String)>) -> (r: String)
    ensures
        r@ == review_prompt_text(failed@),
{
    let mut p = String::new();
    p.append("你是分析质量审核员。以下维度的分析报告未通过硬检查规则。\n\n");
    let mut idx: usize = 0;
    while idx < failed.len()
        invariant
            idx <= failed.len(),
            p@ == review_header() + review_blocks(failed@.take(idx as int)),
        decreases failed.len() - idx,
    {
        let ghost before = p@;
        let ordinal = u64_text(idx as u64 + 1);
        p.append("--- 维度 ");
        p.append(failed[idx].0.key());
        p.append(" (第");
        p.append(ordinal.as_str());
        p.append("个失败) ---\n");
        p.append(failed[idx].1.as_str());
        p.append("\n\n");
        proof {
            let f = failed@.take(idx + 1);
            assert(f.drop_last() =~= failed@.take(idx as int));
            assert(f.last() == failed@[idx as int]);
            assert(p@ =~= before + review_block(failed@[idx as int].0, (idx + 1) as nat, failed@[idx as int].1@));
        }
        idx += 1;
    }
    proof {
        assert(failed@.take(failed.len() as int) =~= failed@);
    }
    p.append("请评估：\n1. 这些失败的报告是否仍有部分有价值信息？（是/否）\n2. 失败原因是什么？（数据缺失/工具失败/格式问题/其他）\n3. 是否建议继续进行综合决策？（继续/跳过）\n\n请用2-4句话简洁回答。");
    p
}


/// The confidence tenths of all grades in a table.
pub open spec fn tenths_total(t: Seq<(Seq<char>, QualityGrade)>) -> nat
    decreases t.len(),
{
    if t.len() == 0 {
        0
    } else {
        tenths_total(t.drop_last()) + grade_tenths(t.last().1)
    }
}

/// `a / b` rounded to the nearest integer, halves to even.
pub open spec fn rounded_quotient(a: nat, b: nat) -> nat
    recommends
        b > 0,
{
    let q = a / b;
    let r = a % b;
    if 2 * r > b {
        q + 1
    } else if 2 * r < b {
        q
    } else if q % 2 == 0 {
        q
    } else {
        q + 1
    }
}

/// The table's overall confidence in whole percent: the mean grade confidence, rounded;
/// 0 for an empty table.
pub open spec fn confidence_percent_of(t: Seq<(Seq<char>, QualityGrade)>) -> nat {
    if t.len() == 0 {
        0
    } else {
        rounded_quotient(10 * tenths_total(t), t.len())
    }
}

/// The line of one table entry: `name: grade text`.
pub open spec fn entry_text(e: (Seq<char>, QualityGrade)) -> Seq<char> {
    e.0 + ": "@ + grade_text(e.1)
}

/// The names of the failing entries, in table order.
pub open spec fn low_names(t: Seq<(Seq<char>, QualityGrade)>) -> Seq<Seq<char>>
    decreases t.len(),
{
    if t.len() == 0 {
        Seq::empty()
    } else {
        let rest = low_names(t.drop_last());
        if is_failing(t.last().1) {
            rest.push(t.last().0)
        } else {
            rest
        }
    }
}

/// The quality note for the decision prompt: nothing for an empty table; else every entry,
/// the overall confidence in percent, and, where some entries fail, a warning naming them.
pub open spec fn quality_prompt_text(t: Seq<(Seq<char>, QualityGrade)>) -> Seq<char> {
    if t.len() == 0 {
        Seq::empty()
    } else {
        let base = "\n\n**数据质量门控结果**：\n"@ + joined(
            t.map_values(|e: (Seq<char>, QualityGrade)| entry_text(e)),
            " | "@,
        ) + "\n整体数据可信度: "@ + decimal_digits(confidence_percent_of(t)) + "%\n"@;
        let low = low_names(t);
        if low.len() == 0 {
            base
        } else {
            base + "\n**注意**：以下维度数据不可靠，决策时请降低权重："@ + joined(low, ", "@) + "\n"@
        }
    }
}

proof fn lemma_tenths_bounded(t: Seq<(Seq<char>, QualityGrade)>)
    ensures
        tenths_total(t) <= 10 * t.len(),
    decreases t.len(),
{
    if t.len() > 0 {
        lemma_tenths_bounded(t.drop_last());
    }
}

proof fn lemma_rounded_percent_bounded(a: nat, n: nat)
    requires
        n > 0,
        a <= 100 * n,
    ensures
        rounded_quotient(a, n) <= 100,
{
    let q = a / n;
    let r = a % n;
    assert(a == q * n + r && 0 <= r < n) by (nonlinear_arith)
        requires
            n > 0,
            q == a / n,
            r == a % n,
    ;
    assert(q <= 100) by (nonlinear_arith)
        requires
            a == q * n + r,
            0 <= r,
            a <= 100 * n,
            n > 0,
    ;
    if q == 100 {
        assert(r == 0) by (nonlinear_arith)
            requires
                a == q * n + r,
                q == 100,
                a <= 100 * n,
                0 <= r,
        ;
    }
}

/// The confidence tenths of all grades in the table.
pub fn confidence_tenths_total(grades: &Vec<(String, QualityGrade)>) -> (r: u64)
    requires
        grades.len() <= u32::MAX,
    ensures
        r == tenths_total(table_of(grades@)),
{
    let ghost t = table_of(grades@);
    let mut total: u64 = 0;
    let mut i: usize = 0;
    while i < grades.len()
        invariant
            i <= grades.len() <= u32::MAX,
            t == table_of(grades@),
            total == tenths_total(t.take(i as int)),
            total <= 10 * i,
        decreases grades.len() - i,
    {
        proof {
            assert(t.take(i + 1).drop_last() =~= t.take(i as int));
        }
        total = total + grades[i].1.confidence_tenths() as u64;
        i += 1;
    }
    proof {
        assert(t.take(grades.len() as int) =~= t);
    }
    total
}

/// The overall confidence of a table in whole percent: the mean of the grades' confidences
/// (A 100, B 80, C 60, D 30, F 0), rounded to the nearest, halves to even; 0 when empty.
pub fn confidence_percent(grades: &Vec<(String, QualityGrade)>) -> (r: u64)
    requires
        grades.len() <= u32::MAX,
    ensures
        r == confidence_percent_of(table_of(grades@)),
        r <= 100,
{
    if grades.len() == 0 {
        return 0;
    }
    let total = confidence_tenths_total(grades);
    let n = grades.len() as u64;
    proof {
        lemma_tenths_bounded(table_of(grades@));
    }
    let a = 10 * total;
    let q = a / n;
    let rem = a % n;
    proof {
        lemma_rounded_percent_bounded(a as nat, n as nat);
    }
    if 2 * rem > n {
        q + 1
    } else if 2 * rem < n {
        q
    } else if q % 2 == 0 {
        q
    } else {
        q + 1
    }
}


fn quality_prompt(grades: &Vec<(String, QualityGrade)>) -> (r: String)
    requires
        grades.len() <= u32::MAX,
    ensures
        r@ == quality_prompt_text(table_of(grades@)),
{
    let ghost t = table_of(grades@);
    if grades.len() == 0 {
        return String::new();
    }
    let mut p = String::new();
    p.append("\n\n**数据质量门控结果**：\n");
    let ghost start = p@;
    let mut i: usize = 0;
    while i < grades.len()
        invariant
            i <= grades.len(),
            t == table_of(grades@),
            p@ == start + joined(
                t.take(i as int).map_values(|e: (Seq<char>, QualityGrade)| entry_text(e)),
                " | "@,
            ),
        decreases grades.len() - i,
    {
        let ghost before = p@;
        let ghost parts = t.take(i as int).map_values(|e: (Seq<char>, QualityGrade)| entry_text(e));
        if i > 0 {
            p.append(" | ");
        }
        p.append(grades[i].0.as_str());
        p.append(": ");
        p.append(grades[i].1.display());
        proof {
            let x = entry_text(t[i as int]);
            assert(t.take(i + 1).map_values(|e: (Seq<char>, QualityGrade)| entry_text(e))
                =~= parts.push(x));
            lemma_joined_push(parts, " | "@, x);
            if i > 0 {
                assert(p@ =~= before + " | "@ + x);
            } else {
                assert(p@ =~= before + x);
            }
        }
        i += 1;
    }
    proof {
        assert(t.take(grades.len() as int) =~= t);
    }
    let percent = u64_text(confidence_percent(grades));
    p.append("\n整体数据可信度: ");
    p.append(percent.as_str());
    p.append("%\n");
    let ghost base = p@;
    let mut low = String::new();
    let mut found: usize = 0;
    let mut j: usize = 0;
    while j < grades.len()
        invariant
            j <= grades.len(),
            t == table_of(grades@),
            found == low_names(t.take(j as int)).len(),
            found <= j,
            low@ == joined(low_names(t.take(j as int)), ", "@),
        decreases grades.len() - j,
    {
        proof {
            assert(t.take(j + 1).drop_last() =~= t.take(j as int));
        }
        if grades[j].1.should_downgrade_weight() {
            let ghost before = low@;
            proof {
                lemma_joined_push(low_names(t.take(j as int)), ", "@, t[j as int].0);
            }
            if found > 0 {
                low.append(", ");
            }
            low.append(grades[j].0.as_str());
            proof {
                if found > 0 {
                    assert(low@ =~= before + ", "@ + t[j as int].0);
                } else {
                    assert(low@ =~= before + t[j as int].0);
                }
            }
            found += 1;
        }
        j += 1;
    }
    proof {
        assert(t.take(grades.len() as int) =~= t);
    }
    if found > 0 {
        p.append("\n**注意**：以下维度数据不可靠，决策时请降低权重：");
        p.append(low.as_str());
        p.append("\n");
    }
    p
}


/// The quality note warns of unreliable dimensions exactly when some entry is graded D or F.
pub proof fn lemma_warning_iff_failing(t: Seq<(Seq<char>, QualityGrade)>)
    ensures
        low_names(t).len() > 0 <==> exists|i: int| 0 <= i < t.len() && is_failing(#[trigger] t[i].1),
    decreases t.len(),
{
    if t.len() > 0 {
        let d = t.drop_last();
        lemma_warning_iff_failing(d);
        if exists|i: int| 0 <= i < d.len() && is_failing(#[trigger] d[i].1) {
            let i = choose|i: int| 0 <= i < d.len() && is_failing(#[trigger] d[i].1);
            assert(t[i] == d[i]);
        }
        if exists|i: int| 0 <= i < t.len() && is_failing(#[trigger] t[i].1) {
            let i = choose|i: int| 0 <= i < t.len() && is_failing(#[trigger] t[i].1);
            if i < t.len() - 1 {
                assert(d[i] == t[i]);
            }
        }
    }
}

/// What the quality gate settles over a run of reports before any LLM is asked: the grade table,
/// how many reports failed, and the review request when a review is due.
#[derive(Debug)]
pub struct QualityAssessment {
    pub grades: Vec<(String, QualityGrade)>,
    pub failed_count: u32,
    pub review_request: Option<String>,
}

/// The quality gate. It grades reports by hard rules and asks its LLM client to review
/// the failed ones when few failed.
pub struct QualityGate<L> {
    pub llm: L,
}

impl<L> QualityGate<L> {
    /// A gate that asks `llm` for its reviews.
    pub fn new(llm: L) -> (r: Self)
        ensures
            r.llm == llm,
    {
        QualityGate { llm }
    }

    /// Grades a report summary by the hard rules (no LLM call).
    pub fn hard_check(&self, summary: &str) -> (r: QualityGrade)
        ensures
            r == hard_check_grade(summary@),
    {
        hard_check_summary(summary)
    }

    /// Grades every report (dimension, summary), recording each grade under the dimension's
    /// name as a map does (a later report of a dimension replaces its grade), counts the
    /// failed reports (D or F), and, when one to three failed, builds the review request
    /// for them.
    pub fn assess(&self, reports: &Vec<(AnalysisDimension, String)>) -> (r: QualityAssessment)
        requires
            reports.len() <= u32::MAX,
        ensures
            table_of(r.grades@) == graded_table(reports@),
            names_distinct(table_of(r.grades@)),
            r.failed_count == failed_reports(reports@).len(),
            r.review_request is Some <==> review_due(failed_reports(reports@).len()),
            r.review_request matches Some(p) ==> p@ == review_prompt_text(failed_reports(reports@)),
    {
        let mut grades: Vec<(String, QualityGrade)> = Vec::new();
        let mut failed: Vec<(AnalysisDimension, String)> = Vec::new();
        let mut i: usize = 0;
        proof {
            assert(table_of(grades@) =~= Seq::<(Seq<char>, QualityGrade)>::empty());
        }
        while i < reports.len()
            invariant
                i <= reports.len() <= u32::MAX,
                table_of(grades@) == graded_table(reports@.take(i as int)),
                names_distinct(table_of(grades@)),
                failed@ == failed_reports(reports@.take(i as int)),
                failed.len() <= i,
            decreases reports.len() - i,
        {
            proof {
                assert(reports@.take(i + 1).drop_last() =~= reports@.take(i as int));
            }
            let grade = hard_check_summary(reports[i].1.as_str());
            let name = String::from_str(reports[i].0.key());
            record_grade(&mut grades, name, grade);
            if grade.should_downgrade_weight() {
                failed.push((reports[i].0, reports[i].1.clone()));
            }
            i += 1;
        }
        proof {
            assert(reports@.take(reports.len() as int) =~= reports@);
        }
        let failed_count = failed.len() as u32;
        let review_request = if failed.len() > 0 && failed.len() <= 3 {
            Some(review_prompt(&failed))
        } else {
            None
        };
        QualityAssessment { grades, failed_count, review_request }
    }

    /// The quality note for the decision prompt: nothing for an empty table; else each
    /// entry as `name: grade`, joined by ` | `, the overall confidence in whole percent, and,
    /// where some entries are D or F, a warning that names them.
    pub fn generate_quality_prompt(&self, grades: &Vec<(String, QualityGrade)>) -> (r: String)
        requires
            grades.len() <= u32::MAX,
        ensures
            r@ == quality_prompt_text(table_of(grades@)),
    {
        quality_prompt(grades)
    }
}


proof fn lemma_count_from_positive(s: Seq<char>, p: Seq<char>, i: int, k: int)
    requires
        p.len() > 0,
        0 <= i <= k,
        occurs_at(s, p, k),
    ensures
        count_matches_from(s, p, i) > 0,
    decreases s.len() - i,
{
    if !occurs_at(s, p, i) && i + p.len() <= s.len() {
        lemma_count_from_positive(s, p, i + 1, k);
    }
}

proof fn lemma_count_positive(s: Seq<char>, p: Seq<char>)
    requires
        p.len() > 0,
        contains_seq(s, p),
    ensures
        count_matches_from(s, p, 0) > 0,
{
    let k = choose|k: int| occurs_at(s, p, k);
    lemma_count_from_positive(s, p, 0, k);
}

/// The hard-check grades, by what a summary holds: a blank summary fails (F); a summary
/// that reports a failed fetch (无法获取, I cannot retrieve, unable to fetch, 工具调用失败,
/// 获取数据失败, 网络错误, request failed) or has fewer than 50 characters is poor (D); three
/// or more `[数据缺失` markers give C; some missing data, or no summary table (a `|` and a
/// `---`), give B; and A needs none of these.
pub proof fn lemma_hard_check_grades(s: Seq<char>)
    ensures
        all_ws(s) ==> hard_check_grade(s) == QualityGrade::F,
        !all_ws(s) && (contains_seq(s, "无法获取"@) || contains_seq(s, "I cannot retrieve"@)
            || contains_seq(s, "unable to fetch"@) || contains_seq(s, "工具调用失败"@)
            || contains_seq(s, "获取数据失败"@) || contains_seq(s, "网络错误"@)
            || contains_seq(s, "request failed"@)) ==> hard_check_grade(s) == QualityGrade::D,
        !all_ws(s) && s.len() < 50 ==> hard_check_grade(s) == QualityGrade::D,
        hard_check_grade(s) == QualityGrade::A ==> {
            &&& !all_ws(s)
            &&& s.len() >= 50
            &&& !contains_seq(s, "无法获取"@) && !contains_seq(s, "I cannot retrieve"@)
            &&& !contains_seq(s, "unable to fetch"@) && !contains_seq(s, "工具调用失败"@)
            &&& !contains_seq(s, "获取数据失败"@) && !contains_seq(s, "网络错误"@)
            &&& !contains_seq(s, "request failed"@)
            &&& !contains_seq(s, "[数据缺失"@)
            &&& contains_seq(s, "|"@) && contains_seq(s, "---"@)
        },
{
    let ms = failure_markers();
    assert(ms[0] == "无法获取"@);
    assert(ms[1] == "I cannot retrieve"@);
    assert(ms[2] == "unable to fetch"@);
    assert(ms[3] == "工具调用失败"@);
    assert(ms[4] == "获取数据失败"@);
    assert(ms[5] == "网络错误"@);
    assert(ms[6] == "request failed"@);
    if hard_check_grade(s) == QualityGrade::A {
        if contains_seq(s, "[数据缺失"@) {
            reveal_strlit("[数据缺失");
            lemma_count_positive(s, "[数据缺失"@);
        }
    }
}

} // verus!
