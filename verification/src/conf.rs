use crate::plan::{
    header, header_lines, in_mode, label_of, step_label, unless_preview, Action, ActionModel,
    FileModel, FilePlan, PlanModel, StepPlan,
};
use crate::text::{opt_text, texts};
use vstd::prelude::*;
use vstd::string::StringExecFns;

verus! {

/// The permission bits that stand where a mode cannot be read: `rw-r--r--`.
pub const DEFAULT_MODE: u32 = 0o644;

pub open spec fn is_octal_digit(c: char) -> bool {
    '0' <= c && c <= '7'
}

/// The number that the octal digits of `s` write.
pub open spec fn octal_value(s: Seq<char>) -> nat
    decreases s.len(),
{
    if s.len() == 0 {
        0
    } else {
        (octal_value(s.drop_last()) * 8 + (s.last() as int - '0' as int)) as nat
    }
}

/// `s` without the `+` that may stand in front of the digits.
pub open spec fn unsigned_part(s: Seq<char>) -> Seq<char> {
    if s.len() > 0 && s[0] == '+' {
        s.drop_first()
    } else {
        s
    }
}

/// The number that `s` writes in octal notation: an optional `+`, then one
/// or more octal digits and nothing else, of a value that 32 bits hold.
pub open spec fn parse_octal(s: Seq<char>) -> Option<u32> {
    let digits = unsigned_part(s);
    if digits.len() > 0 && (forall|i: int| 0 <= i < digits.len() ==> is_octal_digit(
        #[trigger] digits[i],
    )) && octal_value(digits) <= u32::MAX {
        Some(octal_value(digits) as u32)
    } else {
        None
    }
}

/// The permission bits for a mode string: its octal value, or the default
/// where it has none.
pub open spec fn mode_bits(s: Seq<char>) -> u32 {
    match parse_octal(s) {
        Some(bits) => bits,
        None => DEFAULT_MODE,
    }
}

/// The value of octal digits is at least that of a beginning of them.
pub proof fn lemma_octal_value_grows(s: Seq<char>, k: int)
    requires
        0 <= k <= s.len(),
        forall|i: int| 0 <= i < s.len() ==> is_octal_digit(#[trigger] s[i]),
    ensures
        octal_value(s.take(k)) <= octal_value(s),
    decreases s.len(),
{
    if k == s.len() {
        assert(s.take(k) =~= s);
    } else {
        lemma_octal_value_grows(s.drop_last(), k);
        assert(s.drop_last().take(k) =~= s.take(k));
        assert(is_octal_digit(s[s.len() - 1]));
    }
}

/// Reads a mode string.
pub fn parse_mode(s: &str) -> (bits: u32)
    ensures
        bits == mode_bits(s@),
{
    let mut acc: u32 = 0;
    let mut signed = false;
    let mut first = true;
    let mut any = false;
    for c in it: s.chars()
        invariant
            it.seq() == s@,
            first == (it.index() == 0),
            signed == (it.index() > 0 && s@[0] == '+'),
            any == (it.index() > if signed { 1int } else { 0int }),
            forall|j: int|
                (if signed { 1int } else { 0int }) <= j < it.index() ==> is_octal_digit(
                    #[trigger] s@[j],
                ),
            acc == octal_value(s@.subrange(if signed { 1int } else { 0int }, it.index())),
    {
        let ghost i = it.index();
        let ghost start = if signed { 1int } else { 0int };
        if first && c == '+' {
            signed = true;
            first = false;
            proof {
                assert(s@.subrange(1, 1) =~= Seq::<char>::empty());
            }
        } else {
            first = false;
            let ghost digits = unsigned_part(s@);
            proof {
                assert(digits[i - start] == c);
                assert(digits.take(i - start) =~= s@.subrange(start, i));
                assert(digits.take(i - start + 1) =~= s@.subrange(start, i + 1));
                assert(digits.take(i - start + 1).drop_last() =~= s@.subrange(start, i));
            }
            if !(c >= '0' && c <= '7') {
                return DEFAULT_MODE;
            }
            let d: u32 = c as u32 - '0' as u32;
            if acc > (u32::MAX - d) / 8 {
                proof {
                    if forall|j: int| 0 <= j < digits.len() ==> is_octal_digit(#[trigger] digits[j]) {
                        lemma_octal_value_grows(digits, i - start + 1);
                    }
                }
                return DEFAULT_MODE;
            }
            acc = acc * 8 + d;
            any = true;
        }
    }
    proof {
        let start = if signed { 1int } else { 0int };
        assert(unsigned_part(s@) =~= s@.subrange(start, s@.len() as int));
    }
    if any {
        acc
    } else {
        DEFAULT_MODE
    }
}

/// Where the file that stood at `dest` is kept.
pub open spec fn backup_path(dest: Seq<char>) -> Seq<char> {
    dest + ".bak"@
}

/// The plan of a conf step whose destination rendered to `dest` and whose
/// template rendered to `content`. In preview mode the content is shown and
/// nothing is written.
pub open spec fn conf_plan(
    idx: nat,
    name: Option<Seq<char>>,
    backup: bool,
    mode: Option<Seq<char>>,
    dest: Seq<char>,
    content: Seq<char>,
    dry_run: bool,
) -> PlanModel {
    let announced = header(idx, label_of(name, "conf"@), "write "@ + dest);
    PlanModel {
        notices: if dry_run {
            announced.push("Content preview:\n"@ + content)
        } else {
            announced
        },
        action: unless_preview(
            dry_run,
            ActionModel::Write(
                FileModel {
                    dest: dest,
                    content: content,
                    backup: if backup {
                        Some(backup_path(dest))
                    } else {
                        None
                    },
                    mode: match mode {
                        Some(m) => Some(mode_bits(m)),
                        None => None,
                    },
                },
            ),
        ),
    }
}

/// Plans a conf step from its rendered destination and content.
pub fn plan_conf(
    idx: usize,
    name: &Option<String>,
    backup: bool,
    mode: &Option<String>,
    dest: String,
    content: String,
    dry_run: bool,
) -> (plan: StepPlan)
    ensures
        plan@ == conf_plan(
            idx as nat,
            opt_text(*name),
            backup,
            opt_text(*mode),
            dest@,
            content@,
            dry_run,
        ),
{
    let mut what = String::from_str("write ");
    what.append(dest.as_str());
    let label = step_label(name, "conf");
    let mut notices = header_lines(idx, label.as_str(), what.as_str());
    if dry_run {
        let ghost announced = texts(notices@);
        let mut preview = String::from_str("Content preview:\n");
        preview.append(content.as_str());
        notices.push(preview);
        proof {
            assert(texts(notices@) =~= announced.push("Content preview:\n"@ + content@));
        }
    }
    let backup_to = if backup {
        let mut path = dest.clone();
        path.append(".bak");
        Some(path)
    } else {
        None
    };
    let bits = match mode {
        Some(m) => Some(parse_mode(m.as_str())),
        None => None,
    };
    let file = FilePlan { dest, content, backup: backup_to, mode: bits };
    StepPlan { notices, action: in_mode(dry_run, Action::Write(file)) }
}

} // verus!
