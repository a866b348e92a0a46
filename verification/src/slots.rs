//! What outlives the installation of the hook: the way to the original function, the
//! render loop and the renderer, each in a cell.
use once_cell::sync::OnceCell;
use vstd::prelude::*;

verus! {

/// The type `once_cell::sync::OnceCell`.
#[verifier::external_type_specification]
#[verifier::external_body]
#[verifier::reject_recursive_types(T)]
pub struct ExOnceCell<T>(once_cell::sync::OnceCell<T>);

/// What a cell holds: its value, or nothing while it is unset.
pub uninterp spec fn cell_contents(cell: OnceCell<usize>) -> Seq<usize>;

/// Calls `OnceCell::new`: the cell is unset.
#[verifier::external_body]
fn unset_cell() -> (cell: OnceCell<usize>)
    ensures
        cell_contents(cell) == Seq::<usize>::empty(),
{
    OnceCell::new()
}

/// Calls `OnceCell::get_or_init`: a cell that is unset is set to `value`, any other
/// stays as it is, and the value that it then holds is returned.
#[verifier::external_body]
fn get_or_init(cell: &mut OnceCell<usize>, value: usize) -> (kept: usize)
    ensures
        cell_contents(*final(cell)) == (if cell_contents(*old(cell)).len() == 0 {
            seq![value]
        } else {
            cell_contents(*old(cell))
        }),
        cell_contents(*final(cell)).len() == 1,
        kept == cell_contents(*final(cell))[0],
{
    *cell.get_or_init(|| value)
}

/// Calls `OnceCell::get`: the value of the cell, if it is set.
#[verifier::external_body]
fn get(cell: &OnceCell<usize>) -> (value: Option<usize>)
    ensures
        value is None <==> cell_contents(*cell).len() == 0,
        value is Some ==> cell_contents(*cell) == seq![value->0],
{
    cell.get().copied()
}

/// Calls `OnceCell::take`: the value of the cell, if it was set; afterwards it is unset.
#[verifier::external_body]
fn take(cell: &mut OnceCell<usize>) -> (value: Option<usize>)
    ensures
        value is None <==> cell_contents(*old(cell)).len() == 0,
        value is Some ==> cell_contents(*old(cell)) == seq![value->0],
        cell_contents(*final(cell)) == Seq::<usize>::empty(),
{
    cell.take()
}

/// What the slots hold.
pub struct SlotsView {
    /// The address of the original function.
    pub trampoline: Option<usize>,
    /// The render loop that waits for a renderer.
    pub render_loop: Option<usize>,
    /// The renderer.
    pub renderer: Option<usize>,
}

impl SlotsView {
    /// Nothing.
    pub open spec fn empty() -> SlotsView {
        SlotsView { trampoline: None, render_loop: None, renderer: None }
    }

    /// The slots once a hook has been armed: with its render loop, and with its way to
    /// the original function where there was none.
    pub open spec fn armed(self, render_loop: usize, trampoline: usize) -> SlotsView {
        SlotsView {
            trampoline: if self.trampoline is Some {
                self.trampoline
            } else {
                Some(trampoline)
            },
            render_loop: Some(render_loop),
            ..self
        }
    }

    /// The slots once the render loop has been taken.
    pub open spec fn without_render_loop(self) -> SlotsView {
        SlotsView { render_loop: None, ..self }
    }

    /// The slots once a renderer has been set up: with it where there was none.
    pub open spec fn with_renderer(self, renderer: usize) -> SlotsView {
        SlotsView {
            renderer: if self.renderer is Some {
                self.renderer
            } else {
                Some(renderer)
            },
            ..self
        }
    }

    /// The slots once the renderer has been taken.
    pub open spec fn without_renderer(self) -> SlotsView {
        SlotsView { renderer: None, ..self }
    }
}

/// What a cell of these contents holds.
spec fn held(contents: Seq<usize>) -> Option<usize> {
    if contents.len() == 0 {
        None
    } else {
        Some(contents[0])
    }
}

/// The slots.
pub struct HookSlots {
    trampoline: OnceCell<usize>,
    render_loop: OnceCell<usize>,
    renderer: OnceCell<usize>,
}

impl View for HookSlots {
    type V = SlotsView;

    closed spec fn view(&self) -> SlotsView {
        SlotsView {
            trampoline: held(cell_contents(self.trampoline)),
            render_loop: held(cell_contents(self.render_loop)),
            renderer: held(cell_contents(self.renderer)),
        }
    }
}

impl HookSlots {
    /// Slots that hold nothing.
    pub fn new() -> (slots: HookSlots)
        ensures
            slots@ == SlotsView::empty(),
            slots@.trampoline is None,
            slots@.render_loop is None,
            slots@.renderer is None,
    {
        HookSlots {
            trampoline: unset_cell(),
            render_loop: unset_cell(),
            renderer: unset_cell(),
        }
    }

    /// Puts in the render loop, in place of any that is there, and the address of the
    /// original function where there is none, and tells which address is there then.
    pub fn arm(&mut self, render_loop: usize, trampoline: usize) -> (kept: usize)
        ensures
            final(self)@ == old(self)@.armed(render_loop, trampoline),
            final(self)@.trampoline == Some(kept),
            final(self)@.render_loop == Some(render_loop),
            final(self)@.renderer == old(self)@.renderer,
            kept == (match old(self)@.trampoline {
                Some(first) => first,
                None => trampoline,
            }),
    {
        take(&mut self.render_loop);
        get_or_init(&mut self.render_loop, render_loop);
        get_or_init(&mut self.trampoline, trampoline)
    }

    /// The address of the original function.
    pub fn trampoline(&self) -> (trampoline: Option<usize>)
        ensures
            trampoline == self@.trampoline,
    {
        get(&self.trampoline)
    }

    /// The render loop.
    pub fn render_loop(&self) -> (render_loop: Option<usize>)
        ensures
            render_loop == self@.render_loop,
    {
        get(&self.render_loop)
    }

    /// Takes the render loop out.
    pub fn take_render_loop(&mut self) -> (render_loop: Option<usize>)
        ensures
            render_loop == old(self)@.render_loop,
            final(self)@ == old(self)@.without_render_loop(),
            final(self)@.render_loop is None,
            final(self)@.renderer == old(self)@.renderer,
            final(self)@.trampoline == old(self)@.trampoline,
    {
        take(&mut self.render_loop)
    }

    /// The renderer.
    pub fn renderer(&self) -> (renderer: Option<usize>)
        ensures
            renderer == self@.renderer,
    {
        get(&self.renderer)
    }

    /// Puts in the renderer where there is none, and tells which one is there then.
    pub fn keep_renderer(&mut self, renderer: usize) -> (kept: usize)
        ensures
            final(self)@ == old(self)@.with_renderer(renderer),
            final(self)@.renderer == Some(kept),
            kept == (match old(self)@.renderer {
                Some(first) => first,
                None => renderer,
            }),
            final(self)@.render_loop == old(self)@.render_loop,
            final(self)@.trampoline == old(self)@.trampoline,
    {
        get_or_init(&mut self.renderer, renderer)
    }

    /// Takes the renderer out.
    pub fn take_renderer(&mut self) -> (renderer: Option<usize>)
        ensures
            renderer == old(self)@.renderer,
            final(self)@ == old(self)@.without_renderer(),
            final(self)@.renderer is None,
            final(self)@.render_loop == old(self)@.render_loop,
            final(self)@.trampoline == old(self)@.trampoline,
    {
        take(&mut self.renderer)
    }
}

/// The render loop is that of the hook armed last; the way to the original function is
/// that of the hook armed first.
pub proof fn law_last_render_loop_and_first_trampoline_are_kept(
    slots: SlotsView,
    first_loop: usize,
    first_trampoline: usize,
    second_loop: usize,
    second_trampoline: usize,
)
    ensures
        ({
            let first = slots.armed(first_loop, first_trampoline);
            let second = first.armed(second_loop, second_trampoline);
            &&& first.render_loop == Some(first_loop)
            &&& second.render_loop == Some(second_loop)
            &&& second.trampoline == first.trampoline
            &&& slots.trampoline is None ==> first.trampoline == Some(first_trampoline)
            &&& second.renderer == slots.renderer
        }),
{
}

/// A render loop can be taken once; all else stays.
pub proof fn law_render_loop_is_taken_once(slots: SlotsView)
    ensures
        slots.without_render_loop().render_loop is None,
        slots.without_render_loop().trampoline == slots.trampoline,
        slots.without_render_loop().renderer == slots.renderer,
        slots.without_render_loop().without_render_loop() == slots.without_render_loop(),
{
}

/// After the render loop has been taken another can be armed, but the way to the
/// original function stays the first one.
pub proof fn law_rearming_keeps_the_trampoline(
    slots: SlotsView,
    first_loop: usize,
    first_trampoline: usize,
    second_loop: usize,
    second_trampoline: usize,
)
    ensures
        ({
            let armed = slots.armed(first_loop, first_trampoline);
            let again = armed.without_render_loop().armed(second_loop, second_trampoline);
            &&& again.render_loop == Some(second_loop)
            &&& again.trampoline == armed.trampoline
        }),
{
}

/// The first renderer stays until it is taken, and can be taken once.
pub proof fn law_first_renderer_stays(slots: SlotsView, first: usize, second: usize)
    ensures
        slots.renderer is None ==> slots.with_renderer(first).renderer == Some(first),
        slots.with_renderer(first).with_renderer(second) == slots.with_renderer(first),
        slots.without_renderer().renderer is None,
        slots.without_renderer().with_renderer(second).renderer == Some(second),
        slots.without_renderer().trampoline == slots.trampoline,
        slots.without_renderer().render_loop == slots.render_loop,
{
}

/// What each change of the slots does to each of them.
pub proof fn law_slots_change_one_by_one(
    slots: SlotsView,
    render_loop: usize,
    trampoline: usize,
    renderer: usize,
)
    ensures
        ({
            let armed = slots.armed(render_loop, trampoline);
            &&& armed.render_loop == Some(render_loop)
            &&& armed.trampoline == Some(
                match slots.trampoline {
                    Some(first) => first,
                    None => trampoline,
                },
            )
            &&& armed.renderer == slots.renderer
        }),
        ({
            let kept = slots.with_renderer(renderer);
            &&& kept.renderer == Some(
                match slots.renderer {
                    Some(first) => first,
                    None => renderer,
                },
            )
            &&& kept.render_loop == slots.render_loop
            &&& kept.trampoline == slots.trampoline
        }),
        ({
            let taken = slots.without_render_loop();
            &&& taken.render_loop is None
            &&& taken.renderer == slots.renderer
            &&& taken.trampoline == slots.trampoline
        }),
        ({
            let taken = slots.without_renderer();
            &&& taken.renderer is None
            &&& taken.render_loop == slots.render_loop
            &&& taken.trampoline == slots.trampoline
        }),
        ({
            let empty = SlotsView::empty();
            &&& empty.trampoline is None
            &&& empty.render_loop is None
            &&& empty.renderer is None
        }),
{
}

} // verus!
