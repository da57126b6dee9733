//! The icon in the notification area: its picture, its menu and its tooltip.
use vstd::prelude::*;

use crate::plan::{Action, ActionView, Level, Plan};

verus! {

/// The width and height of the icon in pixels.
pub const ICON_SIZE: u32 = 32;

/// How long a new icon waits before it first shows whether the proxy is running.
pub const START_WAIT_MILLIS: u64 = 500;

/// How long the icon waits before it looks again.
pub const POLL_MILLIS: u64 = 50;

/// How long a proxy has to end when the program is left.
pub const EXIT_WAIT_MILLIS: u64 = 200;

/// Whether the pixel in column `x` and row `y` belongs to the disc: its distance from the centre
/// is at most 14 pixels.
pub open spec fn in_disc(x: int, y: int) -> bool {
    (x - 16) * (x - 16) + (y - 16) * (y - 16) <= 14 * 14
}

/// Red, green, blue and opacity of the pixel in column `x` and row `y`.
pub open spec fn icon_pixel(x: int, y: int) -> Seq<u8> {
    if in_disc(x, y) {
        seq![76, 175, 80, 255]
    } else {
        seq![0, 0, 0, 0]
    }
}

/// The icon, row by row, four bytes to a pixel: an opaque green disc on a transparent ground.
pub open spec fn icon_picture() -> Seq<u8> {
    Seq::new(
        (4 * ICON_SIZE * ICON_SIZE) as nat,
        |i: int| icon_pixel((i / 4) % 32, i / 128)[i % 4],
    )
}

/// The four bytes of a pixel in the picture.
proof fn lemma_pixel_in_picture(x: int, y: int)
    requires
        0 <= x < 32,
        0 <= y < 32,
    ensures
        icon_picture().take(128 * y + 4 * x + 4) == icon_picture().take(128 * y + 4 * x)
            + icon_pixel(x, y),
{
    let start = 128 * y + 4 * x;
    let picture = icon_picture();
    assert forall|k: int| 0 <= k < 4 implies #[trigger] picture[start + k] == icon_pixel(
        x,
        y,
    )[k] by {
        assert((start + k) / 4 == 32 * y + x);
        assert((32 * y + x) % 32 == x);
        assert((start + k) / 128 == y);
        assert((start + k) % 4 == k);
    }
    let longer = picture.take(start + 4);
    assert forall|i: int| 0 <= i < longer.len() implies #[trigger] longer[i] == (picture.take(start)
        + icon_pixel(x, y))[i] by {
        if i >= start {
            assert(picture[start + (i - start)] == icon_pixel(x, y)[i - start]);
        }
    }
    assert(longer =~= picture.take(start) + icon_pixel(x, y));
}

/// Adds the pixel in column `x` and row `y`.
fn push_pixel(rgba: &mut Vec<u8>, x: i32, y: i32)
    requires
        0 <= x < 32,
        0 <= y < 32,
    ensures
        final(rgba)@ == old(rgba)@ + icon_pixel(x as int, y as int),
{
    let dx: i32 = x - 16;
    let dy: i32 = y - 16;
    assert(0 <= dx * dx <= 16 * 16 && 0 <= dy * dy <= 16 * 16) by (nonlinear_arith)
        requires
            -16 <= dx < 16,
            -16 <= dy < 16,
    ;
    if dx * dx + dy * dy <= 196 {
        rgba.push(76);
        rgba.push(175);
        rgba.push(80);
        rgba.push(255);
    } else {
        rgba.push(0);
        rgba.push(0);
        rgba.push(0);
        rgba.push(0);
    }
    assert(rgba@ =~= old(rgba)@ + icon_pixel(x as int, y as int));
}

/// Draws the icon.
pub fn create_icon() -> (r: Vec<u8>)
    ensures
        r@ == icon_picture(),
        r@.len() == 4 * ICON_SIZE * ICON_SIZE,
{
    let mut rgba: Vec<u8> = Vec::new();
    assert(rgba@ =~= icon_picture().take(0));
    let mut y: i32 = 0;
    while y < 32
        invariant
            0 <= y <= 32,
            rgba@ == icon_picture().take(128 * y),
        decreases 32 - y,
    {
        let mut x: i32 = 0;
        while x < 32
            invariant
                0 <= y < 32,
                0 <= x <= 32,
                rgba@ == icon_picture().take(128 * y + 4 * x),
            decreases 32 - x,
        {
            push_pixel(&mut rgba, x, y);
            proof {
                lemma_pixel_in_picture(x as int, y as int);
            }
            x = x + 1;
        }
        y = y + 1;
    }
    assert(icon_picture().take(4096) =~= icon_picture());
    rgba
}

/// What is known of the proxy behind the icon.
#[derive(Clone, Copy, Debug, PartialEq, Eq, Structural)]
pub enum Status {
    Starting,
    Running,
    Stopped,
}

/// The tooltip of the icon.
pub open spec fn tooltip_text(status: Status) -> Seq<char> {
    match status {
        Status::Starting => "TG WS Proxy — запуск..."@,
        Status::Running => "TG WS Proxy — работает"@,
        Status::Stopped => "TG WS Proxy — остановлен"@,
    }
}

/// The status of a proxy that had the time to start.
pub fn status(running: bool) -> (r: Status)
    ensures
        r == if running {
            Status::Running
        } else {
            Status::Stopped
        },
{
    if running {
        Status::Running
    } else {
        Status::Stopped
    }
}

/// The tooltip of the icon.
pub fn tooltip(status: Status) -> (r: &'static str)
    ensures
        r@ == tooltip_text(status),
{
    match status {
        Status::Starting => "TG WS Proxy — запуск...",
        Status::Running => "TG WS Proxy — работает",
        Status::Stopped => "TG WS Proxy — остановлен",
    }
}

/// The entries of the icon's menu that can be chosen.
#[derive(Clone, Copy, Debug, PartialEq, Eq, Structural)]
pub enum Choice {
    Stop,
    Start,
    Exit,
}

/// The entries of the icon's menu, from the top.
#[derive(Clone, Copy, Debug, PartialEq, Eq, Structural)]
pub enum Entry {
    /// The name of the program, which cannot be chosen.
    Title,
    Separator,
    Item(Choice),
}

/// The text of a menu entry; a separator has none.
pub open spec fn entry_text(entry: Entry) -> Seq<char> {
    match entry {
        Entry::Title => "TG WS Proxy"@,
        Entry::Separator => ""@,
        Entry::Item(Choice::Stop) => "Остановить"@,
        Entry::Item(Choice::Start) => "Запустить"@,
        Entry::Item(Choice::Exit) => "Выход"@,
    }
}

/// The icon's menu.
pub fn menu() -> (r: Vec<Entry>)
    ensures
        r@ == seq![
            Entry::Title,
            Entry::Separator,
            Entry::Item(Choice::Stop),
            Entry::Item(Choice::Start),
            Entry::Separator,
            Entry::Item(Choice::Exit),
        ],
{
    vec![
        Entry::Title,
        Entry::Separator,
        Entry::Item(Choice::Stop),
        Entry::Item(Choice::Start),
        Entry::Separator,
        Entry::Item(Choice::Exit),
    ]
}

/// The text of a menu entry; a separator has none.
pub fn label(entry: Entry) -> (r: &'static str)
    ensures
        r@ == entry_text(entry),
{
    match entry {
        Entry::Title => "TG WS Proxy",
        Entry::Separator => "",
        Entry::Item(Choice::Stop) => "Остановить",
        Entry::Item(Choice::Start) => "Запустить",
        Entry::Item(Choice::Exit) => "Выход",
    }
}

/// The state of the icon. The proxy behind it is started once, with one cancellation token.
#[derive(Clone, Copy, Debug, PartialEq, Eq, Structural)]
pub struct Tray {
    /// Whether the proxy's token was cancelled.
    pub cancelled: bool,
}

/// The state after an entry was chosen while the proxy was running, or was not.
pub open spec fn chosen(tray: Tray, choice: Choice, running: bool) -> Tray {
    Tray { cancelled: tray.cancelled || (running && !(choice is Start)) }
}

/// What is done when an entry was chosen while the proxy was running, or was not.
pub open spec fn choice_plan(tray: Tray, choice: Choice, running: bool) -> Seq<ActionView> {
    match choice {
        Choice::Stop => if running {
            seq![
                ActionView::Log(Level::Info, "остановка прокси из трея"@),
                ActionView::Cancel,
            ]
        } else {
            Seq::empty()
        },
        Choice::Start => if tray.cancelled {
            seq![
                ActionView::Log(
                    Level::Info,
                    "перезапуск после остановки пока не поддерживается"@,
                ),
            ]
        } else {
            Seq::empty()
        },
        Choice::Exit => seq![ActionView::Log(Level::Info, "выход из трея"@)] + (if running {
            seq![ActionView::Cancel]
        } else {
            Seq::empty()
        }) + seq![
            ActionView::Pause(EXIT_WAIT_MILLIS),
            ActionView::Exit(0),
        ],
    }
}

impl Tray {
    /// The state of a new icon.
    pub fn new() -> (r: Tray)
        ensures
            r == (Tray { cancelled: false }),
    {
        Tray { cancelled: false }
    }

    /// Takes the choice of a menu entry. A proxy that runs can be stopped, but one that was
    /// stopped cannot be started again.
    pub fn choose_entry(&mut self, choice: Choice, running: bool) -> (r: Plan)
        ensures
            *final(self) == chosen(*old(self), choice, running),
            r@ == choice_plan(*old(self), choice, running),
    {
        let mut plan = Plan::new();
        match choice {
            Choice::Stop => {
                if running {
                    plan.log(Level::Info, "остановка прокси из трея");
                    plan.push(Action::Cancel);
                    self.cancelled = true;
                }
            },
            Choice::Start => {
                if self.cancelled {
                    plan.log(Level::Info, "перезапуск после остановки пока не поддерживается");
                }
            },
            Choice::Exit => {
                plan.log(Level::Info, "выход из трея");
                if running {
                    plan.push(Action::Cancel);
                    self.cancelled = true;
                }
                plan.push(Action::Pause(EXIT_WAIT_MILLIS));
                plan.push(Action::Exit(0));
            },
        }
        assert(plan@ =~= choice_plan(*old(self), choice, running));
        plan
    }
}

/// The state after some choices, each with whether the proxy was running then.
pub open spec fn tray_after(tray: Tray, choices: Seq<(Choice, bool)>) -> Tray
    decreases choices.len(),
{
    if choices.len() == 0 {
        tray
    } else {
        let (choice, running) = choices.last();
        chosen(tray_after(tray, choices.drop_last()), choice, running)
    }
}

/// The proxy's token is cancelled exactly when it was running at some choice of the entries that
/// stop it or end the program.
pub proof fn law_tray_cancels_what_runs(choices: Seq<(Choice, bool)>)
    ensures
        tray_after(Tray { cancelled: false }, choices).cancelled <==> exists|i: int|
            0 <= i < choices.len() && !((#[trigger] choices[i]).0 is Start) && choices[i].1,
    decreases choices.len(),
{
    if choices.len() > 0 {
        let before = choices.drop_last();
        law_tray_cancels_what_runs(before);
        assert(choices[choices.len() - 1] == choices.last());
        if tray_after(Tray { cancelled: false }, before).cancelled {
            let i = choose|i: int|
                0 <= i < before.len() && !((#[trigger] before[i]).0 is Start) && before[i].1;
            assert(choices[i] == before[i]);
        }
        if exists|i: int|
            0 <= i < choices.len() && !((#[trigger] choices[i]).0 is Start) && choices[i].1 {
            let i = choose|i: int|
                0 <= i < choices.len() && !((#[trigger] choices[i]).0 is Start) && choices[i].1;
            if i < before.len() {
                assert(before[i] == choices[i]);
            }
        }
    }
}

/// No choice launches a proxy: one that was stopped stays stopped. A choice cancels only a proxy
/// that is running.
pub proof fn law_tray_never_restarts(tray: Tray, choice: Choice, running: bool)
    ensures
        tray.cancelled ==> chosen(tray, choice, running).cancelled,
        forall|i: int|
            0 <= i < choice_plan(tray, choice, running).len() ==> !(#[trigger] choice_plan(
                tray,
                choice,
                running,
            )[i] is Launch),
        choice_plan(tray, choice, running).contains(ActionView::Cancel) <==> running && !(
        choice is Start),
{
    let plan = choice_plan(tray, choice, running);
    if running && !(choice is Start) {
        assert(plan[1] is Cancel);
    }
}

/// The disc is the same when the picture is turned over its diagonal, or mirrored about the
/// column or row through its centre.
pub proof fn law_icon_is_symmetric(x: int, y: int)
    ensures
        icon_pixel(x, y) == icon_pixel(y, x),
        icon_pixel(x, y) == icon_pixel(32 - x, y),
        icon_pixel(x, y) == icon_pixel(x, 32 - y),
{
    let mx = 32 - x;
    let my = 32 - y;
    assert((mx - 16) * (mx - 16) == (x - 16) * (x - 16)) by (nonlinear_arith)
        requires
            mx == 32 - x,
    ;
    assert((my - 16) * (my - 16) == (y - 16) * (y - 16)) by (nonlinear_arith)
        requires
            my == 32 - y,
    ;
}

/// The picture has 32 rows of 32 pixels, row after row, four bytes to each. A pixel is opaque and
/// green where it lies at most 14 pixels from the point in column 16 and row 16; every other one
/// is black and transparent.
pub proof fn law_icon_is_a_green_disc(x: int, y: int)
    requires
        0 <= x < 32,
        0 <= y < 32,
    ensures
        icon_picture().len() == 4096,
        ({
            let at = 4 * (32 * y + x);
            let green = (x - 16) * (x - 16) + (y - 16) * (y - 16) <= 196;
            let pixel = icon_picture().subrange(at, at + 4);
            &&& green ==> pixel == seq![76u8, 175, 80, 255]
            &&& !green ==> pixel == seq![0u8, 0, 0, 0]
        }),
{
    let at = 4 * (32 * y + x);
    lemma_pixel_in_picture(x, y);
    let pixel = icon_picture().subrange(at, at + 4);
    let longer = icon_picture().take(at) + icon_pixel(x, y);
    assert(longer == icon_picture().take(at + 4));
    assert forall|k: int| 0 <= k < 4 implies #[trigger] pixel[k] == icon_pixel(x, y)[k] by {
        assert(icon_picture().take(at + 4)[at + k] == icon_picture()[at + k]);
        assert(longer[at + k] == icon_pixel(x, y)[k]);
    }
    assert(pixel =~= icon_pixel(x, y));
}

/// The entry that ends the program always does, whatever was chosen before and whether or not the
/// proxy is running: it says so, cancels a proxy that is running, gives it time, and exits with
/// code 0. No other entry ends the program or makes it wait.
pub proof fn law_exit_entry_ends_the_program(
    tray: Tray,
    other: Tray,
    choice: Choice,
    running: bool,
)
    ensures
        ({
            let plan = choice_plan(tray, Choice::Exit, running);
            &&& plan.len() == if running {
                4int
            } else {
                3int
            }
            &&& plan[0] matches ActionView::Log(level, _) && level is Info
            &&& running ==> plan[1] is Cancel
            &&& plan[plan.len() - 2] == ActionView::Pause(200)
            &&& plan.last() == ActionView::Exit(0)
            &&& plan == choice_plan(other, Choice::Exit, running)
            &&& plan[0] == choice_plan(other, Choice::Exit, !running)[0]
        }),
        !(choice is Exit) ==> forall|i: int|
            0 <= i < choice_plan(tray, choice, running).len() ==> !(#[trigger] choice_plan(
                tray,
                choice,
                running,
            )[i] is Exit) && !(choice_plan(tray, choice, running)[i] is Pause),
{
}

/// The entry that stops the proxy says so and cancels it where it is running, whatever was chosen
/// before, and otherwise does nothing.
pub proof fn law_stop_entry_stops_what_runs(tray: Tray, other: Tray)
    ensures
        choice_plan(tray, Choice::Stop, false).len() == 0,
        ({
            let plan = choice_plan(tray, Choice::Stop, true);
            &&& plan.len() == 2
            &&& plan[0] matches ActionView::Log(level, _) && level is Info
            &&& plan[1] is Cancel
            &&& plan == choice_plan(other, Choice::Stop, true)
        }),
        chosen(tray, Choice::Stop, true).cancelled,
        chosen(tray, Choice::Exit, true).cancelled,
        chosen(tray, Choice::Stop, false) == tray,
        chosen(tray, Choice::Exit, false) == tray,
{
}

/// The entry that starts the proxy changes nothing. It speaks up only where the proxy was
/// stopped, and whether or not it has ended by then.
pub proof fn law_start_entry_only_speaks(tray: Tray, running: bool)
    ensures
        chosen(tray, Choice::Start, running) == tray,
        choice_plan(tray, Choice::Start, running) == choice_plan(tray, Choice::Start, !running),
        tray.cancelled ==> choice_plan(tray, Choice::Start, running).len() == 1 && (choice_plan(
            tray,
            Choice::Start,
            running,
        )[0] matches ActionView::Log(level, _) && level is Info),
        !tray.cancelled ==> choice_plan(tray, Choice::Start, running).len() == 0,
{
}

} // verus!
