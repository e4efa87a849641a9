//! The greetings: who is greeted, when, and in which words.

use vstd::prelude::*;
use crate::span::{debug_text, duration_text, Span};
use crate::timer::GreetTimer;

verus! {

/// The text of each string of `lines`, in order.
pub open spec fn texts(lines: Seq<String>) -> Seq<Seq<char>> {
    lines.map_values(|line: String| line@)
}

/// The names of the people who are greeted, in the order they are created.
pub open spec fn people_spec() -> Seq<Seq<char>> {
    seq!["Elaina Proctor"@, "Renzo Hume"@, "Zayna Nieves"@]
}

/// The line that greets `name` when the timer shows `elapsed`.
pub open spec fn greeting_spec(name: Seq<char>, elapsed: Seq<char>) -> Seq<char> {
    "Hello "@ + name + ", "@ + elapsed
}

/// One greeting for each of `names`, in their order.
pub open spec fn greetings_spec(names: Seq<Seq<char>>, elapsed: Seq<char>) -> Seq<Seq<char>> {
    names.map_values(|name: Seq<char>| greeting_spec(name, elapsed))
}

/// What a frame prints: the greetings when the timer has just finished,
/// nothing otherwise.
pub open spec fn frame_lines(
    just_finished: bool,
    names: Seq<Seq<char>>,
    elapsed: Seq<char>,
) -> Seq<Seq<char>> {
    if just_finished {
        greetings_spec(names, elapsed)
    } else {
        Seq::empty()
    }
}

/// What a frame prints that finds the timer as `timer`: the greetings with
/// the time on the timer when its last tick completed a period, nothing
/// otherwise.
pub open spec fn lines_of(timer: GreetTimer, names: Seq<Seq<char>>) -> Seq<Seq<char>> {
    frame_lines(
        timer.just_finished_spec(),
        names,
        debug_text(timer.elapsed.secs, timer.elapsed.nanos),
    )
}

/// How many lines a run of frames prints; `timers` holds, frame by frame,
/// the timer as the frame finds it.
pub open spec fn lines_over(timers: Seq<GreetTimer>, names: Seq<Seq<char>>) -> nat
    decreases timers.len(),
{
    if timers.len() == 0 {
        0
    } else {
        lines_over(timers.drop_last(), names) + lines_of(timers.last(), names).len()
    }
}

/// On how many frames of a run the timer has just finished.
pub open spec fn finished_frames(timers: Seq<GreetTimer>) -> nat
    decreases timers.len(),
{
    if timers.len() == 0 {
        0
    } else {
        finished_frames(timers.drop_last()) + if timers.last().just_finished_spec() {
            1nat
        } else {
            0nat
        }
    }
}

/// The line that the timer's completion is announced with.
pub open spec fn banner_spec(elapsed: Seq<char>) -> Seq<char> {
    "HELLO WORLD 🚀! "@ + elapsed
}

/// A frame prints exactly one line for each name when the timer has just
/// finished, each the greeting of the name in its place, and no line at all
/// when it has not.
pub proof fn lemma_one_line_per_name(
    just_finished: bool,
    names: Seq<Seq<char>>,
    elapsed: Seq<char>,
)
    ensures
        just_finished ==> frame_lines(just_finished, names, elapsed).len() == names.len(),
        !just_finished ==> frame_lines(just_finished, names, elapsed).len() == 0,
        just_finished ==> forall|i: int|
            0 <= i < names.len() ==> #[trigger] frame_lines(just_finished, names, elapsed)[i]
                == greeting_spec(names[i], elapsed),
{
}

/// Over any run of frames every frame on which the timer has just finished
/// prints one line for each name and every other frame prints none, so the
/// run prints as many lines as there are names, times the frames on which
/// the timer has just finished.
pub proof fn lemma_lines_over_run(timers: Seq<GreetTimer>, names: Seq<Seq<char>>)
    ensures
        lines_over(timers, names) == names.len() * finished_frames(timers),
        forall|at: int|
            0 <= at < timers.len() && timers[at].just_finished_spec() ==> (#[trigger] lines_of(
                timers[at],
                names,
            )).len() == names.len(),
        forall|at: int|
            0 <= at < timers.len() && !timers[at].just_finished_spec() ==> (#[trigger] lines_of(
                timers[at],
                names,
            )).len() == 0,
    decreases timers.len(),
{
    if timers.len() == 0 {
        assert(names.len() * 0 == 0);
    } else {
        let earlier = timers.drop_last();
        lemma_lines_over_run(earlier, names);
        let count = finished_frames(earlier);
        if timers.last().just_finished_spec() {
            assert(names.len() * (count + 1) == names.len() * count + names.len())
                by (nonlinear_arith);
        }
    }
}

/// While fewer than 2^32 periods pass within one tick, the frame after the
/// tick greets everybody when the time run up on the timer reaches the
/// period, and nobody when it does not.
pub proof fn lemma_greets_when_period_reached(
    timer: GreetTimer,
    delta: Span,
    names: Seq<Seq<char>>,
)
    requires
        timer.wf(),
        delta.wf(),
        timer.run_up(delta) / timer.period.total_nanos() < 0x1_0000_0000,
    ensures
        timer.run_up(delta) >= timer.period.total_nanos() ==> lines_of(
            timer.after_tick(delta),
            names,
        ).len() == names.len(),
        timer.run_up(delta) < timer.period.total_nanos() ==> lines_of(
            timer.after_tick(delta),
            names,
        ).len() == 0,
{
    timer.lemma_tick_wraps(delta);
}

/// The names of the people to create at startup.
pub fn insert_people() -> (names: Vec<String>)
    ensures
        texts(names@) == people_spec(),
{
    let mut names: Vec<String> = Vec::new();
    names.push(String::from_str("Elaina Proctor"));
    names.push(String::from_str("Renzo Hume"));
    names.push(String::from_str("Zayna Nieves"));
    assert(texts(names@) =~= people_spec());
    names
}

/// The line that greets `name` when the timer's time reads `elapsed`.
pub fn greeting(name: &str, elapsed: &str) -> (line: String)
    ensures
        line@ == greeting_spec(name@, elapsed@),
{
    let mut line = String::from_str("Hello ");
    line.append(name);
    line.append(", ");
    line.append(elapsed);
    line
}

/// One greeting for each of `names`, in their order.
pub fn greetings(names: &Vec<String>, elapsed: &str) -> (lines: Vec<String>)
    ensures
        texts(lines@) == greetings_spec(texts(names@), elapsed@),
{
    let mut lines: Vec<String> = Vec::new();
    let mut at: usize = 0;
    while at < names.len()
        invariant
            at <= names@.len(),
            lines@.len() == at,
            forall|i: int| 0 <= i < at ==> (#[trigger] lines@[i])@ == greeting_spec(names@[i]@, elapsed@),
        decreases names@.len() - at,
    {
        lines.push(greeting(names[at].as_str(), elapsed));
        at += 1;
    }
    assert(texts(lines@) =~= greetings_spec(texts(names@), elapsed@));
    lines
}

/// One frame of greeting. It reads the timer and changes nothing: when the
/// timer's last tick completed a period it greets each of `names` with the
/// time on the timer, in the order of `names`, and when it did not there is
/// no line.
pub fn greet_people(timer: &GreetTimer, names: &Vec<String>) -> (lines: Vec<String>)
    requires
        timer.elapsed.wf(),
    ensures
        texts(lines@) == lines_of(*timer, texts(names@)),
        timer.just_finished_spec() ==> lines@.len() == names@.len(),
        !timer.just_finished_spec() ==> lines@.len() == 0,
{
    if timer.just_finished() {
        let elapsed = duration_text(timer.elapsed().secs, timer.elapsed().nanos);
        greetings(names, elapsed.as_str())
    } else {
        let lines: Vec<String> = Vec::new();
        assert(texts(lines@) =~= Seq::<Seq<char>>::empty());
        lines
    }
}

/// The line that announces the timer's completion, given the text of the
/// time on the timer.
pub fn banner(elapsed: &str) -> (line: String)
    ensures
        line@ == banner_spec(elapsed@),
{
    let mut line = String::from_str("HELLO WORLD 🚀! ");
    line.append(elapsed);
    line
}

/// The announcement of a frame: the banner with the time on the timer when
/// the last tick completed a period, nothing otherwise.
pub fn hello_world(timer: &GreetTimer) -> (line: Option<String>)
    requires
        timer.elapsed.wf(),
    ensures
        line.is_some() == timer.just_finished_spec(),
        line matches Some(text) ==> text@ == banner_spec(
            debug_text(timer.elapsed.secs, timer.elapsed.nanos),
        ),
{
    if timer.just_finished() {
        let elapsed = duration_text(timer.elapsed().secs, timer.elapsed().nanos);
        Some(banner(elapsed.as_str()))
    } else {
        None
    }
}

} // verus!
