//! Rendering registered metrics into the text exposition format.
//!
//! Every metric becomes one block of three lines: a `# HELP` line carrying
//! the help text, a `# TYPE` line naming the metric kind, and the sample
//! line pairing the metric name with its current integer value. The whole
//! output is pinned down, character for character, by the spec functions in
//! this module.

use vstd::prelude::*;

use crate::registry::Gauge;
use crate::registry::GaugeView;
use crate::registry::Registry;

verus! {

/// The decimal digit character for one digit value.
pub open spec fn digit_char(d: int) -> char
    recommends
        0 <= d < 10,
{
    if d == 0 {
        '0'
    } else if d == 1 {
        '1'
    } else if d == 2 {
        '2'
    } else if d == 3 {
        '3'
    } else if d == 4 {
        '4'
    } else if d == 5 {
        '5'
    } else if d == 6 {
        '6'
    } else if d == 7 {
        '7'
    } else if d == 8 {
        '8'
    } else {
        '9'
    }
}

/// The decimal digits of a non-negative number, most significant first,
/// without a sign and without leading zeros (zero itself is "0").
pub open spec fn dec_digits(n: nat) -> Seq<char>
    decreases n,
{
    if n < 10 {
        seq![digit_char(n as int)]
    } else {
        dec_digits(n / 10) + seq![digit_char((n % 10) as int)]
    }
}

/// The decimal rendering of a signed value: a minus sign for negative
/// values, then the digits of the magnitude.
pub open spec fn i64_digits(value: int) -> Seq<char> {
    if value < 0 {
        seq!['-'] + dec_digits((-value) as nat)
    } else {
        dec_digits(value as nat)
    }
}

/// Appends one decimal digit character to `out`.
fn append_digit(d: u64, out: &mut String)
    requires
        d < 10,
    ensures
        final(out)@ == old(out)@ + seq![digit_char(d as int)],
{
    if d == 0 {
        proof {
            reveal_strlit("0");
        }
        out.append("0");
    } else if d == 1 {
        proof {
            reveal_strlit("1");
        }
        out.append("1");
    } else if d == 2 {
        proof {
            reveal_strlit("2");
        }
        out.append("2");
    } else if d == 3 {
        proof {
            reveal_strlit("3");
        }
        out.append("3");
    } else if d == 4 {
        proof {
            reveal_strlit("4");
        }
        out.append("4");
    } else if d == 5 {
        proof {
            reveal_strlit("5");
        }
        out.append("5");
    } else if d == 6 {
        proof {
            reveal_strlit("6");
        }
        out.append("6");
    } else if d == 7 {
        proof {
            reveal_strlit("7");
        }
        out.append("7");
    } else if d == 8 {
        proof {
            reveal_strlit("8");
        }
        out.append("8");
    } else {
        proof {
            reveal_strlit("9");
        }
        out.append("9");
    }
    proof {
        assert(out@ =~= old(out)@ + seq![digit_char(d as int)]);
    }
}

/// Appends the decimal digits of `n` to `out`, most significant first.
fn append_u64_decimal(n: u64, out: &mut String)
    ensures
        final(out)@ == old(out)@ + dec_digits(n as nat),
    decreases n,
{
    if n >= 10 {
        append_u64_decimal(n / 10, out);
    }
    append_digit(n % 10, out);
    proof {
        assert(out@ =~= old(out)@ + dec_digits(n as nat));
    }
}

/// Appends the decimal rendering of `value` to `out`, sign included.
fn append_i64_decimal(value: i64, out: &mut String)
    ensures
        final(out)@ == old(out)@ + i64_digits(value as int),
{
    if value >= 0 {
        append_u64_decimal(value as u64, out);
    } else {
        proof {
            reveal_strlit("-");
        }
        out.append("-");
        let magnitude: u64 = ((-(value + 1)) as u64) + 1;
        proof {
            assert(magnitude as int == -(value as int));
        }
        append_u64_decimal(magnitude, out);
        proof {
            assert(out@ =~= old(out)@ + i64_digits(value as int));
        }
    }
}

/// The `# HELP` line of a metric, without its terminating newline.
pub open spec fn help_line_content(name: Seq<char>, help: Seq<char>) -> Seq<char> {
    "# HELP "@ + name + " "@ + help
}

/// The `# TYPE` line of a gauge, without its terminating newline.
pub open spec fn type_line_content(name: Seq<char>) -> Seq<char> {
    "# TYPE "@ + name + " gauge"@
}

/// The sample line pairing a metric name with its value, without its
/// terminating newline.
pub open spec fn sample_line_content(name: Seq<char>, value: int) -> Seq<char> {
    name + " "@ + i64_digits(value)
}

/// The full three-line block of one gauge.
pub open spec fn render_gauge(gauge: GaugeView) -> Seq<char> {
    help_line_content(gauge.name, gauge.help) + "\n"@ + type_line_content(gauge.name) + "\n"@
        + sample_line_content(gauge.name, gauge.value) + "\n"@
}

/// The full exposition text: one block per gauge, in order.
pub open spec fn render_metrics(gauges: Seq<GaugeView>) -> Seq<char>
    decreases gauges.len(),
{
    if gauges.len() == 0 {
        Seq::empty()
    } else {
        render_gauge(gauges[0]) + render_metrics(gauges.drop_first())
    }
}

/// Rendering distributes over appending one gauge at the end.
pub proof fn lemma_render_metrics_push(gauges: Seq<GaugeView>, gauge: GaugeView)
    ensures
        render_metrics(gauges.push(gauge)) == render_metrics(gauges) + render_gauge(gauge),
    decreases gauges.len(),
{
    if gauges.len() == 0 {
        assert(gauges.push(gauge).drop_first() =~= gauges);
        assert(gauges.push(gauge)[0] == gauge);
        assert(gauges.push(gauge).len() != 0);
        assert(render_metrics(gauges.push(gauge)) == render_gauge(gauge) + render_metrics(gauges));
        assert(render_metrics(gauges) == Seq::<char>::empty());
        assert(render_gauge(gauge) + Seq::<char>::empty() =~= Seq::<char>::empty() + render_gauge(
            gauge,
        ));
        assert(render_metrics(gauges.push(gauge)) =~= render_metrics(gauges) + render_gauge(gauge));
    } else {
        assert(gauges.push(gauge).drop_first() =~= gauges.drop_first().push(gauge));
        lemma_render_metrics_push(gauges.drop_first(), gauge);
        assert(gauges.push(gauge)[0] == gauges[0]);
        assert(gauges.push(gauge).len() != 0);
        assert(render_metrics(gauges.push(gauge)) == render_gauge(gauges[0]) + render_metrics(
            gauges.drop_first().push(gauge),
        ));
        assert(render_metrics(gauges.push(gauge)) == render_gauge(gauges[0]) + (render_metrics(
            gauges.drop_first(),
        ) + render_gauge(gauge)));
        assert((render_gauge(gauges[0]) + render_metrics(gauges.drop_first())) + render_gauge(gauge)
            =~= render_gauge(gauges[0]) + (render_metrics(gauges.drop_first()) + render_gauge(
            gauge,
        )));
        assert(render_metrics(gauges) == render_gauge(gauges[0]) + render_metrics(
            gauges.drop_first(),
        ));
        assert(render_metrics(gauges.push(gauge)) =~= render_metrics(gauges) + render_gauge(gauge));
    }
}

/// `part` occurs in `text` starting at position `k`.
pub open spec fn has_sub_at(text: Seq<char>, part: Seq<char>, k: int) -> bool {
    0 <= k && k + part.len() <= text.len() && text.subrange(k, k + part.len()) == part
}

/// `text` contains `content` as a whole line: the content followed by a
/// newline, starting at the beginning of the text or right after a newline.
pub open spec fn contains_line(text: Seq<char>, content: Seq<char>) -> bool {
    exists|k: int|
        has_sub_at(text, content + "\n"@, k) && (k == 0 || text[k - 1] == '\n')
}

/// An occurrence inside `part` is an occurrence inside `lead + part`,
/// shifted by the length of the lead.
proof fn lemma_sub_at_extend_left(lead: Seq<char>, text: Seq<char>, part: Seq<char>, k: int)
    requires
        has_sub_at(text, part, k),
    ensures
        has_sub_at(lead + text, part, lead.len() + k),
{
    assert((lead + text).subrange(lead.len() + k, lead.len() + k + part.len()) =~= text.subrange(
        k,
        k + part.len(),
    ));
}

/// An occurrence inside `text` survives appending a tail.
proof fn lemma_sub_at_extend_right(text: Seq<char>, tail: Seq<char>, part: Seq<char>, k: int)
    requires
        has_sub_at(text, part, k),
    ensures
        has_sub_at(text + tail, part, k),
{
    assert((text + tail).subrange(k, k + part.len()) =~= text.subrange(k, k + part.len()));
}

/// A gauge's block is never empty and always ends with a newline.
proof fn lemma_render_gauge_ends_newline(gauge: GaugeView)
    ensures
        render_gauge(gauge).len() > 0,
        render_gauge(gauge)[render_gauge(gauge).len() - 1] == '\n',
{
    reveal_strlit("\n");
}

/// Each of the three lines of a gauge's block stands in the block at a
/// known position, on a line boundary.
proof fn lemma_render_gauge_lines(gauge: GaugeView)
    ensures
        ({
            let block = render_gauge(gauge);
            let help_content = help_line_content(gauge.name, gauge.help);
            let type_content = type_line_content(gauge.name);
            let sample_content = sample_line_content(gauge.name, gauge.value);
            let type_start: int = help_content.len() as int + 1;
            let sample_start: int = help_content.len() as int + 1 + type_content.len() as int + 1;
            has_sub_at(block, help_content + "\n"@, 0) && has_sub_at(
                block,
                type_content + "\n"@,
                type_start,
            ) && block[type_start - 1] == '\n' && has_sub_at(
                block,
                sample_content + "\n"@,
                sample_start,
            ) && block[sample_start - 1] == '\n'
        }),
{
    reveal_strlit("\n");
    let block = render_gauge(gauge);
    let help_content = help_line_content(gauge.name, gauge.help);
    let type_content = type_line_content(gauge.name);
    let sample_content = sample_line_content(gauge.name, gauge.value);
    let type_start: int = help_content.len() as int + 1;
    let sample_start: int = help_content.len() as int + 1 + type_content.len() as int + 1;
    assert("\n"@.len() == 1);
    assert(block.len() == help_content.len() + type_content.len() + sample_content.len() + 3);
    assert(block.subrange(0, help_content.len() as int + 1) =~= help_content + "\n"@);
    assert(block.subrange(type_start, type_start + type_content.len() as int + 1) =~= type_content
        + "\n"@);
    assert(block.subrange(sample_start, sample_start + sample_content.len() as int + 1)
        =~= sample_content + "\n"@);
    assert(block[type_start - 1] == '\n');
    assert(block[sample_start - 1] == '\n');
}

/// A line standing on a boundary inside the block of gauge `i` stands on a
/// boundary inside the full exposition text.
proof fn lemma_line_lifts_to_render(gauges: Seq<GaugeView>, i: int, content: Seq<char>, k: int)
    requires
        0 <= i < gauges.len(),
        has_sub_at(render_gauge(gauges[i]), content + "\n"@, k),
        k == 0 || render_gauge(gauges[i])[k - 1] == '\n',
    ensures
        contains_line(render_metrics(gauges), content),
    decreases i,
{
    let text = render_metrics(gauges);
    let head = render_gauge(gauges[0]);
    let rest = render_metrics(gauges.drop_first());
    assert(text == head + rest);
    if i == 0 {
        lemma_sub_at_extend_right(head, rest, content + "\n"@, k);
        if k != 0 {
            assert(text[k - 1] == head[k - 1]);
        }
        assert(has_sub_at(text, content + "\n"@, k) && (k == 0 || text[k - 1] == '\n'));
    } else {
        assert(gauges.drop_first()[i - 1] == gauges[i]);
        lemma_line_lifts_to_render(gauges.drop_first(), i - 1, content, k);
        let inner = choose|j: int|
            has_sub_at(rest, content + "\n"@, j) && (j == 0 || rest[j - 1] == '\n');
        lemma_sub_at_extend_left(head, rest, content + "\n"@, inner);
        let lifted = head.len() + inner;
        if inner == 0 {
            lemma_render_gauge_ends_newline(gauges[0]);
            assert(text[lifted - 1] == head[head.len() - 1]);
        } else {
            assert(text[lifted - 1] == rest[inner - 1]);
        }
        assert(has_sub_at(text, content + "\n"@, lifted) && (lifted == 0 || text[lifted - 1]
            == '\n'));
    }
}

/// The export round trip: the block of every registered gauge survives into
/// the full exposition text. For the gauge at position `i`, the text
/// contains, each as a whole line: `# HELP <name> <help>`, `# TYPE <name>
/// gauge`, and `<name> <value>` with the gauge's current value rendered in
/// decimal.
pub proof fn lemma_export_round_trip(gauges: Seq<GaugeView>, i: int)
    requires
        0 <= i < gauges.len(),
    ensures
        contains_line(render_metrics(gauges), help_line_content(gauges[i].name, gauges[i].help)),
        contains_line(render_metrics(gauges), type_line_content(gauges[i].name)),
        contains_line(
            render_metrics(gauges),
            sample_line_content(gauges[i].name, gauges[i].value),
        ),
{
    lemma_render_gauge_lines(gauges[i]);
    let help_content = help_line_content(gauges[i].name, gauges[i].help);
    let type_content = type_line_content(gauges[i].name);
    let sample_content = sample_line_content(gauges[i].name, gauges[i].value);
    let type_start: int = help_content.len() as int + 1;
    let sample_start: int = help_content.len() as int + 1 + type_content.len() as int + 1;
    lemma_line_lifts_to_render(gauges, i, help_content, 0);
    lemma_line_lifts_to_render(gauges, i, type_content, type_start);
    lemma_line_lifts_to_render(gauges, i, sample_content, sample_start);
}

/// Appends the three-line block of one gauge to `out`.
fn append_gauge(gauge: &Gauge, out: &mut String)
    ensures
        final(out)@ == old(out)@ + render_gauge(gauge@),
{
    out.append("# HELP ");
    out.append(gauge.name().as_str());
    out.append(" ");
    out.append(gauge.help().as_str());
    out.append("\n");
    out.append("# TYPE ");
    out.append(gauge.name().as_str());
    out.append(" gauge");
    out.append("\n");
    out.append(gauge.name().as_str());
    out.append(" ");
    append_i64_decimal(gauge.value(), out);
    out.append("\n");
    proof {
        assert(out@ =~= old(out)@ + render_gauge(gauge@));
    }
}

/// Renders every registered metric, in registration order, into the text
/// exposition format.
pub fn render_metrics_text(registry: &Registry) -> (out: String)
    ensures
        out@ == render_metrics(registry@),
{
    let mut out = String::new();
    let count = registry.metric_count();
    let mut i: usize = 0;
    while i < count
        invariant
            count == registry@.len(),
            i <= count,
            out@ == render_metrics(registry@.take(i as int)),
        decreases count - i,
    {
        let gauge = registry.gauge_at(i);
        proof {
            assert(registry@.take(i as int + 1) =~= registry@.take(i as int).push(
                registry@[i as int],
            ));
            lemma_render_metrics_push(registry@.take(i as int), registry@[i as int]);
        }
        append_gauge(gauge, &mut out);
        i += 1;
    }
    proof {
        assert(registry@.take(count as int) =~= registry@);
    }
    out
}

} // verus!
