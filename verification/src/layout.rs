//! From the configured controls to the steps that build the remote surface.
//!
//! The surface is built by a builder that takes one control at a time, and
//! opens and closes sizers around the controls that belong together. This
//! module decides the steps and the name that each control gets; performing
//! them is left to the caller. Steps are planned first to last, and the first
//! name that cannot be written ends the planning: the steps planned until
//! then stay in the plan.

use crate::fixed::{Fixed, MICROS_PER_UNIT};
use crate::settings::{get_proportion, label_view, Control, ControlView, Gui, Orientation};
use crate::sexp::printed_shape;
use crate::token::{
    encode_button, encode_keys, scroll_toggle_name, scroll_toggle_token, sexp_of_button,
    sexp_of_keys,
};
use vstd::prelude::*;

verus! {

/// One step in building the surface.
#[derive(Debug, PartialEq, Eq)]
pub enum BuildStep {
    /// Add a push button.
    Button { name: String, label: Option<String> },
    /// Add a pad.
    Xy { name: String, label: Option<String> },
    /// Add a line of text.
    Label { name: String, label: String },
    /// Open a sizer. The controls added until it is closed lie in it, each on
    /// the share of it that `proportions` gives in the same order.
    BeginSizer { orientation: Orientation, proportions: Vec<Fixed> },
    /// Close the sizer that was opened last.
    EndSizer,
}

/// The mathematical value of a [`BuildStep`].
pub ghost enum BuildStepView {
    Button { name: Seq<char>, label: Option<Seq<char>> },
    Xy { name: Seq<char>, label: Option<Seq<char>> },
    Label { name: Seq<char>, label: Seq<char> },
    BeginSizer { orientation: Orientation, proportions: Seq<Fixed> },
    EndSizer,
}

impl View for BuildStep {
    type V = BuildStepView;

    open spec fn view(&self) -> BuildStepView {
        match self {
            BuildStep::Button { name, label } => BuildStepView::Button {
                name: name@,
                label: match label {
                    Some(text) => Some(text@),
                    None => None,
                },
            },
            BuildStep::Xy { name, label } => BuildStepView::Xy {
                name: name@,
                label: match label {
                    Some(text) => Some(text@),
                    None => None,
                },
            },
            BuildStep::Label { name, label } => BuildStepView::Label { name: name@, label: label@ },
            BuildStep::BeginSizer { orientation, proportions } => BuildStepView::BeginSizer {
                orientation: *orientation,
                proportions: proportions@,
            },
            BuildStep::EndSizer => BuildStepView::EndSizer,
        }
    }
}

/// The title of a surface and the steps that build it.
#[derive(Debug, PartialEq, Eq)]
pub struct GuiPlan {
    pub title: String,
    pub steps: Vec<BuildStep>,
}

/// Why a surface cannot be built.
#[derive(Clone, Copy, Debug, PartialEq, Eq, Structural)]
pub enum LayoutError {
    /// The writer reported an error for the name of a control.
    UnwrittenName,
}

/// The mathematical values of `steps`.
pub open spec fn steps_view(steps: Seq<BuildStep>) -> Seq<BuildStepView> {
    Seq::new(steps.len(), |i: int| steps[i]@)
}

/// The name of the pad.
pub open spec fn pad_name() -> Seq<char> {
    "xy"@
}

/// The share of a sizer that a control gets if it asks for none: an equal
/// share, cut off after six decimal places.
pub open spec fn default_proportion(count: nat) -> Fixed {
    if count > 0 {
        Fixed { micros: (MICROS_PER_UNIT as int / count as int) as i64 }
    } else {
        Fixed { micros: 0 }
    }
}

/// The shares of a sizer that its controls get, in their order: what each
/// asks for, or the default.
pub open spec fn proportions_of(controls: Seq<ControlView>) -> Seq<Fixed> {
    Seq::new(
        controls.len(),
        |i: int|
            match controls[i].proportion() {
                Some(p) => p,
                None => default_proportion(controls.len()),
            },
    )
}

/// The steps that add a control, or `None` if a name in it cannot be
/// written. A mouse button and a key chord are named by what they stand for;
/// the pad, the scroll switch and a label have fixed names. A sizer is opened,
/// filled with its controls in their order, and closed.
pub open spec fn steps_of(c: ControlView) -> Option<Seq<BuildStepView>>
    decreases c, 0nat,
{
    match c {
        ControlView::MouseButton { label, button, proportion } => match printed_shape(
            sexp_of_button(button),
        ) {
            Some(name) => Some(seq![BuildStepView::Button { name, label }]),
            None => None,
        },
        ControlView::MouseXy { label, proportion } => Some(
            seq![BuildStepView::Xy { name: pad_name(), label }],
        ),
        ControlView::ScrollButton { label, proportion } => Some(
            seq![BuildStepView::Button { name: scroll_toggle_name(), label }],
        ),
        ControlView::Key { label, keys, proportion } => match printed_shape(sexp_of_keys(keys)) {
            Some(name) => Some(seq![BuildStepView::Button { name, label }]),
            None => None,
        },
        ControlView::Label { label, proportion } => Some(
            seq![BuildStepView::Label { name: Seq::empty(), label }],
        ),
        ControlView::Sizer { orientation, controls, proportion } => match steps_of_first(
            controls,
            controls.len(),
        ) {
            Some(inner) => Some(
                seq![BuildStepView::BeginSizer { orientation, proportions: proportions_of(controls) }]
                    + inner + seq![BuildStepView::EndSizer],
            ),
            None => None,
        },
    }
}

/// The steps that add the first `n` of `controls`, or `None` if a name in
/// them cannot be written.
pub open spec fn steps_of_first(controls: Seq<ControlView>, n: nat) -> Option<Seq<BuildStepView>>
    decreases controls, n,
{
    if n == 0 || n > controls.len() {
        Some(Seq::empty())
    } else {
        match (steps_of_first(controls, (n - 1) as nat), steps_of(controls[n - 1])) {
            (Some(front), Some(last)) => Some(front + last),
            _ => None,
        }
    }
}

/// The steps that are planned for a control in which a name cannot be
/// written, before the planning ends at that name: none for a control that
/// is no sizer; for a sizer its opening and what is planned for its controls
/// until the name.
pub open spec fn steps_before_failure(c: ControlView) -> Seq<BuildStepView>
    decreases c, 0nat,
{
    match c {
        ControlView::Sizer { orientation, controls, proportion } => seq![
            BuildStepView::BeginSizer { orientation, proportions: proportions_of(controls) },
        ] + steps_until_failure(controls, controls.len()),
        _ => Seq::empty(),
    }
}

/// The steps that are planned for the first `n` of `controls`, where the
/// planning ends at the first name that cannot be written: every step of the
/// controls before the one with that name, and of that one its steps before
/// the failure.
pub open spec fn steps_until_failure(controls: Seq<ControlView>, n: nat) -> Seq<BuildStepView>
    decreases controls, n,
{
    if n == 0 || n > controls.len() {
        Seq::empty()
    } else {
        match steps_of_first(controls, (n - 1) as nat) {
            Some(front) => match steps_of(controls[n - 1]) {
                Some(last) => front + last,
                None => front + steps_before_failure(controls[n - 1]),
            },
            None => steps_until_failure(controls, (n - 1) as nat),
        }
    }
}

/// Computes [`default_proportion`].
pub fn equal_share(count: usize) -> (r: Fixed)
    ensures
        r == default_proportion(count as nat),
{
    if count == 0 {
        Fixed { micros: 0 }
    } else if count as u64 > 1_000_000 {
        assert(MICROS_PER_UNIT as int / count as int == 0) by (nonlinear_arith)
            requires
                count > 1_000_000,
                MICROS_PER_UNIT == 1_000_000,
        ;
        Fixed { micros: 0 }
    } else {
        Fixed { micros: MICROS_PER_UNIT / (count as i64) }
    }
}

/// Computes [`proportions_of`].
pub fn sizer_proportions(controls: &Vec<Control>) -> (r: Vec<Fixed>)
    ensures
        r@ == proportions_of(Seq::new(controls@.len(), |i: int| controls@[i]@)),
{
    let share = equal_share(controls.len());
    let mut shares: Vec<Fixed> = Vec::new();
    let mut i: usize = 0;
    let ghost views = Seq::new(controls@.len(), |i: int| controls@[i]@);
    while i < controls.len()
        invariant
            i <= controls@.len(),
            views == Seq::new(controls@.len(), |i: int| controls@[i]@),
            share == default_proportion(controls@.len()),
            shares@ =~= proportions_of(views).subrange(0, i as int),
        decreases controls@.len() - i,
    {
        let asked = get_proportion(&controls[i]);
        assert(views[i as int] == controls@[i as int]@);
        shares.push(
            match asked {
                Some(p) => p,
                None => share,
            },
        );
        i += 1;
    }
    assert(shares@ =~= proportions_of(views));
    shares
}

/// A copy of an optional label.
fn copy_label(label: &Option<String>) -> (r: Option<String>)
    ensures
        label_view(r) == label_view(*label),
{
    match label {
        Some(text) => Some(text.clone()),
        None => None,
    }
}

/// If a name among the first `n` controls cannot be written, none among the
/// first `m` can for a larger `m`, and the planning ends where it ended.
pub proof fn lemma_unwritten_stays(controls: Seq<ControlView>, n: nat, m: nat)
    requires
        n <= m <= controls.len(),
        steps_of_first(controls, n) is None,
    ensures
        steps_of_first(controls, m) is None,
        steps_until_failure(controls, m) == steps_until_failure(controls, n),
    decreases m,
{
    if n < m {
        lemma_unwritten_stays(controls, n, (m - 1) as nat);
    }
}

/// Adds to `plan` the steps that add `control`, one after the other.
///
/// The result is `Ok` exactly if every name in the control can be written,
/// and the plan then ends in all the steps of the control. Otherwise the
/// planning ends at the first name that cannot be written: the error is
/// returned, and the steps planned until then stay in the plan, which are the
/// opening of each sizer that was entered and the steps of the controls that
/// came before the name. No sizer is closed after the failure.
pub fn add_control(plan: &mut Vec<BuildStep>, control: &Control) -> (r: Result<(), LayoutError>)
    ensures
        match r {
            Ok(_) => steps_of(control@) is Some && steps_view(final(plan)@) == steps_view(
                old(plan)@,
            ) + steps_of(control@)->0,
            Err(e) => steps_of(control@) is None && e == LayoutError::UnwrittenName && steps_view(
                final(plan)@,
            ) == steps_view(old(plan)@) + steps_before_failure(control@),
        },
    decreases control,
{
    let ghost before = steps_view(plan@);
    match control {
        Control::MouseButton { label, button, proportion: _ } => {
            match encode_button(*button) {
                Some(name) => plan.push(BuildStep::Button { name, label: copy_label(label) }),
                None => {
                    assert(steps_view(plan@) =~= before + steps_before_failure(control@));
                    return Err(LayoutError::UnwrittenName);
                },
            }
        },
        Control::MouseXy { label, proportion: _ } => {
            plan.push(BuildStep::Xy { name: "xy".to_owned(), label: copy_label(label) });
        },
        Control::ScrollButton { label, proportion: _ } => {
            plan.push(
                BuildStep::Button {
                    name: scroll_toggle_token().to_owned(),
                    label: copy_label(label),
                },
            );
        },
        Control::Key { label, keys, proportion: _ } => {
            match encode_keys(keys) {
                Some(name) => plan.push(BuildStep::Button { name, label: copy_label(label) }),
                None => {
                    assert(steps_view(plan@) =~= before + steps_before_failure(control@));
                    return Err(LayoutError::UnwrittenName);
                },
            }
        },
        Control::Label { label, proportion: _ } => {
            plan.push(BuildStep::Label { name: String::new(), label: label.clone() });
        },
        Control::Sizer { orientation, controls, proportion: _ } => {
            let ghost views = control@->Sizer_controls;
            assert(views =~= Seq::new(controls@.len(), |i: int| controls@[i]@));
            plan.push(
                BuildStep::BeginSizer {
                    orientation: *orientation,
                    proportions: sizer_proportions(controls),
                },
            );
            let ghost opening = seq![
                BuildStepView::BeginSizer {
                    orientation: *orientation,
                    proportions: proportions_of(views),
                },
            ];
            assert(steps_view(plan@) =~= before + opening);
            let mut i: usize = 0;
            while i < controls.len()
                invariant
                    i <= controls@.len(),
                    control@ is Sizer,
                    control@->Sizer_controls == views,
                    control@->Sizer_orientation == *orientation,
                    opening == seq![
                        BuildStepView::BeginSizer {
                            orientation: *orientation,
                            proportions: proportions_of(views),
                        },
                    ],
                    views.len() == controls@.len(),
                    forall|j: int| 0 <= j < controls@.len() ==> views[j] == controls@[j]@,
                    forall|j: int|
                        0 <= j < controls@.len() ==> decreases_to!(control => #[trigger] controls@[j]),
                    before == steps_view(old(plan)@),
                    steps_of_first(views, i as nat) is Some,
                    steps_view(plan@) == before + opening + steps_of_first(views, i as nat)->0,
                decreases controls@.len() - i,
            {
                let ghost so_far = steps_view(plan@);
                match add_control(plan, &controls[i]) {
                    Ok(_) => {
                        assert(before + opening + (steps_of_first(views, i as nat)->0 + steps_of(
                            views[i as int],
                        )->0) =~= so_far + steps_of(views[i as int])->0);
                    },
                    Err(e) => {
                        proof {
                            let front = steps_of_first(views, i as nat)->0;
                            let left = steps_before_failure(views[i as int]);
                            assert(steps_of(views[i as int]) is None);
                            assert(steps_of_first(views, i as nat + 1) is None);
                            assert(steps_until_failure(views, i as nat + 1) == front + left);
                            lemma_unwritten_stays(views, i as nat + 1, views.len());
                            assert(steps_before_failure(control@) == opening + steps_until_failure(
                                views,
                                views.len(),
                            ));
                            assert(before + (opening + (front + left)) =~= so_far + left);
                        }
                        return Err(e);
                    },
                }
                i += 1;
            }
            let ghost filled = steps_view(plan@);
            plan.push(BuildStep::EndSizer);
            assert(steps_view(plan@) =~= filled + seq![BuildStepView::EndSizer]);
            assert(filled + seq![BuildStepView::EndSizer] =~= before + (opening + steps_of_first(
                views,
                views.len(),
            )->0 + seq![BuildStepView::EndSizer]));
            return Ok(());
        },
    }
    assert(steps_view(plan@) =~= before + steps_of(control@)->0);
    Ok(())
}

/// Plans the surface that `gui` describes: its title, and the steps that add
/// its controls to an empty builder. Where a name cannot be written there is
/// no plan.
pub fn build_gui(gui: &Gui) -> (r: Result<GuiPlan, LayoutError>)
    ensures
        match r {
            Ok(plan) => plan.title@ == gui@.title && steps_of(gui@.control) == Some(
                steps_view(plan.steps@),
            ),
            Err(e) => steps_of(gui@.control) is None && e == LayoutError::UnwrittenName,
        },
{
    let mut steps: Vec<BuildStep> = Vec::new();
    match add_control(&mut steps, &gui.control) {
        Ok(_) => {
            assert(steps_view(Seq::<BuildStep>::empty()) + steps_of(gui@.control)->0 =~= steps_of(
                gui@.control,
            )->0);
            Ok(GuiPlan { title: gui.title.clone(), steps })
        },
        Err(e) => Err(e),
    }
}

} // verus!
