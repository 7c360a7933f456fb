//! The page renderer: every task becomes a block of markup, and the blocks
//! are set between the prefix and the suffix of a template.

use crate::decimal::{decimal, push_decimal, push_two_digits, two_digits};
use crate::task::{task_views, Task, TaskView};
use crate::template::{split_template, template_prefix, template_suffix};
use crate::time::Time;
use vstd::prelude::*;
use vstd::string::*;

verus! {

/// How a task's block begins, up to its title.
pub const BLOCK_OPEN: &'static str =
    "<li style=\"border: 1px solid black; padding: 10px; margin: 10px;\">\n            <h2>";

/// What stands between a task's title and its content.
pub const TITLE_CLOSE: &'static str = "</h2>\n            <p>";

/// What stands between a task's content and its time of day.
pub const CONTENT_CLOSE: &'static str = "</p>\n            <p>Created at ";

/// What stands between a task's time of day and its date.
pub const DATE_LEAD: &'static str = " on ";

/// How a task's block ends, after its year.
pub const BLOCK_CLOSE: &'static str = ".</p>\n            </li>";

/// A timestamp as `HH:MM:SS on DD/MM/YYYY`: every field but the year on two
/// digits, the year as it is.
pub open spec fn timestamp_text(t: Time) -> Seq<char> {
    two_digits(t.hours as nat).push(':')
        + two_digits(t.minutes as nat).push(':')
        + two_digits(t.seconds as nat)
        + DATE_LEAD@
        + two_digits(t.days as nat).push('/')
        + two_digits(t.months as nat).push('/')
        + decimal(t.years as nat)
}

/// The block of one task: a list item with the title as a heading, the
/// content as a paragraph and the timestamp as another. Title and content
/// stand in it as they are, unescaped.
pub open spec fn block(task: TaskView) -> Seq<char> {
    BLOCK_OPEN@
        + task.title
        + TITLE_CLOSE@
        + task.content
        + CONTENT_CLOSE@
        + timestamp_text(task.creation)
        + BLOCK_CLOSE@
}

/// The blocks of a run of tasks, in order, one behind the other.
pub open spec fn blocks(tasks: Seq<TaskView>) -> Seq<char> {
    tasks.map_values(|t: TaskView| block(t)).flatten()
}

/// The page for a template and a run of tasks: the template's prefix, the
/// blocks, the template's suffix.
pub open spec fn rendered(template: Seq<char>, tasks: Seq<TaskView>) -> Seq<char> {
    template_prefix(template) + blocks(tasks) + template_suffix(template)
}

/// No tasks, no blocks.
pub proof fn lemma_blocks_empty()
    ensures
        blocks(Seq::<TaskView>::empty()) == Seq::<char>::empty(),
{
    assert(Seq::<TaskView>::empty().map_values(|t: TaskView| block(t)) =~= Seq::<
        Seq<char>,
    >::empty());
}

/// One more task at the end puts its block at the end.
pub proof fn lemma_blocks_push(tasks: Seq<TaskView>, task: TaskView)
    ensures
        blocks(tasks.push(task)) == blocks(tasks) + block(task),
{
    let f = |t: TaskView| block(t);
    assert(tasks.push(task).map_values(f) =~= tasks.map_values(f).push(block(task)));
    tasks.map_values(f).lemma_flatten_push(block(task));
}

/// Blocks of two runs of tasks, one behind the other, are the blocks of the
/// two runs joined: every task's block stands where the task stands.
pub proof fn lemma_blocks_concat(first: Seq<TaskView>, second: Seq<TaskView>)
    ensures
        blocks(first + second) == blocks(first) + blocks(second),
    decreases second.len(),
{
    if second.len() == 0 {
        lemma_blocks_empty();
        assert(first + second =~= first);
        assert(blocks(first) + blocks(second) =~= blocks(first));
    } else {
        let init = second.drop_last();
        lemma_blocks_concat(first, init);
        lemma_blocks_push(first + init, second.last());
        lemma_blocks_push(init, second.last());
        assert((first + init).push(second.last()) =~= first + second);
        assert(init.push(second.last()) =~= second);
        assert((blocks(first) + blocks(init)) + block(second.last()) =~= blocks(first) + (blocks(
            init,
        ) + block(second.last())));
    }
}

/// With no tasks the page is the template's prefix and suffix with nothing
/// in between.
pub proof fn lemma_render_without_tasks(template: Seq<char>)
    ensures
        rendered(template, Seq::empty()) == template_prefix(template) + template_suffix(template),
{
    lemma_blocks_empty();
    assert(template_prefix(template) + Seq::<char>::empty() =~= template_prefix(template));
}

/// With an empty template the page is the blocks alone.
pub proof fn lemma_render_empty_template(tasks: Seq<TaskView>)
    ensures
        rendered(Seq::empty(), tasks) == blocks(tasks),
{
    let none = Seq::<char>::empty();
    assert(none + blocks(tasks) + none =~= blocks(tasks));
}

/// Appends a timestamp as `HH:MM:SS on DD/MM/YYYY`.
pub fn push_timestamp(out: &mut String, t: &Time)
    ensures
        final(out)@ == old(out)@ + timestamp_text(*t),
{
    push_two_digits(out, t.hours);
    out.push(':');
    push_two_digits(out, t.minutes);
    out.push(':');
    push_two_digits(out, t.seconds);
    out.append(DATE_LEAD);
    push_two_digits(out, t.days);
    out.push('/');
    push_two_digits(out, t.months);
    out.push('/');
    push_decimal(out, t.years);
    assert(out@ =~= old(out)@ + timestamp_text(*t));
}

/// Appends the block of one task.
pub fn push_block(out: &mut String, task: &Task)
    ensures
        final(out)@ == old(out)@ + block(task@),
{
    out.append(BLOCK_OPEN);
    out.append(task.title.as_str());
    out.append(TITLE_CLOSE);
    out.append(task.content.as_str());
    out.append(CONTENT_CLOSE);
    push_timestamp(out, &task.creation);
    out.append(BLOCK_CLOSE);
    assert(out@ =~= old(out)@ + block(task@));
}

/// Appends the blocks of all the tasks, in their order.
pub fn push_blocks(out: &mut String, tasks: &[Task])
    ensures
        final(out)@ == old(out)@ + blocks(task_views(tasks@)),
{
    let ghost views = task_views(tasks@);
    let mut i: usize = 0;
    proof {
        lemma_blocks_empty();
        assert(views.take(0) =~= Seq::<TaskView>::empty());
        assert(out@ =~= old(out)@ + blocks(views.take(0)));
    }
    while i < tasks.len()
        invariant
            i <= tasks.len(),
            views == task_views(tasks@),
            out@ == old(out)@ + blocks(views.take(i as int)),
        decreases tasks.len() - i,
    {
        proof {
            lemma_blocks_push(views.take(i as int), views[i as int]);
            assert(views.take(i as int).push(views[i as int]) =~= views.take(i + 1));
            assert(views[i as int] == tasks@[i as int]@);
        }
        push_block(out, &tasks[i]);
        i = i + 1;
        assert(out@ =~= old(out)@ + blocks(views.take(i as int)));
    }
    assert(views.take(i as int) =~= views);
}

/// Renders the page: the template's prefix, then the block of every task in
/// order, then the template's suffix.
pub fn render(template: &str, tasks: &[Task]) -> (page: String)
    ensures
        page@ == rendered(template@, task_views(tasks@)),
{
    let (mut page, suffix) = split_template(template);
    push_blocks(&mut page, tasks);
    page.append(suffix.as_str());
    page
}

} // verus!
