//! The two compositor entities: views (windows) and outputs (displays).
//!
//! Both kinds live in one handle namespace; handle 0 is the root view. An
//! entity is a local snapshot: mutators change the caller's copy only, and
//! propagating a change to a live runtime is the collaborator's business.
//! Operations that only a live runtime could answer return an explicit
//! error or absent value instead of fabricating data.

use vstd::prelude::*;
use vstd::std_specs::cmp::{PartialEqSpec, PartialOrdSpec};
use core::cmp::Ordering;
use crate::types::{Geometry, ResizeEdge, Size, ViewState, ViewType};

verus! {

/// Why an operation on a handle could not be carried out.
#[derive(Clone, Copy, Debug, PartialEq, Eq, Structural)]
pub enum HandleError {
    /// The operation has no meaning without a live runtime.
    NotSupported,
    /// A bulk mutation could not be committed against the backing runtime;
    /// the entity is left unchanged.
    ApplyFailed,
}

/// A handle to one on-screen window, with its locally held state.
#[derive(Debug)]
pub struct WlcView {
    /// Identity within the shared handle namespace; 0 is the root view.
    pub handle: u32,
    pub title: String,
    pub class: String,
    pub app_id: String,
    pub pid: libc::pid_t,
    /// Snapshot of the output this view is assigned to, not a live link.
    pub output: WlcOutput,
    /// The actual geometry.
    pub geometry: Geometry,
    /// The geometry as currently rendered; may lag behind `geometry`
    /// during transitions.
    pub visible_geometry: Geometry,
    pub focused: bool,
    /// Visibility bitmask; the view shows on an output iff the masks overlap.
    pub mask: u32,
    pub view_type: ViewType,
    pub view_state: ViewState,
}

/// A handle to one display, with its locally held state.
#[derive(Debug)]
pub struct WlcOutput {
    /// Identity within the shared handle namespace.
    pub handle: u32,
    pub name: String,
    pub sleep: bool,
    /// Positive scale factor applied to the native resolution.
    pub scaling: u32,
    /// Visibility bitmask matched against each view's mask.
    pub mask: u32,
    /// Native resolution; absent until probed from a live runtime.
    pub resolution: Option<Size>,
    /// Scale-adjusted resolution as of the last `set_resolution` call.
    pub virtual_resolution: Option<Size>,
    /// Views assigned to this output, in stacking order.
    pub views: Vec<WlcView>,
}

impl PartialEq for WlcView {
    /// Views of equal handle are the same entity, whatever their snapshots hold.
    fn eq(&self, other: &Self) -> bool {
        self.handle == other.handle
    }
}

impl vstd::std_specs::cmp::PartialEqSpecImpl for WlcView {
    open spec fn obeys_eq_spec() -> bool {
        true
    }

    open spec fn eq_spec(&self, other: &Self) -> bool {
        self.handle == other.handle
    }
}

impl PartialOrd for WlcView {
    /// Views are ordered by handle value.
    fn partial_cmp(&self, other: &Self) -> Option<Ordering> {
        if self.handle < other.handle {
            Some(Ordering::Less)
        } else if self.handle == other.handle {
            Some(Ordering::Equal)
        } else {
            Some(Ordering::Greater)
        }
    }
}

impl vstd::std_specs::cmp::PartialOrdSpecImpl for WlcView {
    open spec fn obeys_partial_cmp_spec() -> bool {
        true
    }

    open spec fn partial_cmp_spec(&self, other: &Self) -> Option<Ordering> {
        if self.handle < other.handle {
            Some(Ordering::Less)
        } else if self.handle == other.handle {
            Some(Ordering::Equal)
        } else {
            Some(Ordering::Greater)
        }
    }
}

impl PartialEq for WlcOutput {
    /// Outputs of equal handle are the same entity, whatever their snapshots hold.
    fn eq(&self, other: &Self) -> bool {
        self.handle == other.handle
    }
}

impl vstd::std_specs::cmp::PartialEqSpecImpl for WlcOutput {
    open spec fn obeys_eq_spec() -> bool {
        true
    }

    open spec fn eq_spec(&self, other: &Self) -> bool {
        self.handle == other.handle
    }
}

impl PartialOrd for WlcOutput {
    /// Outputs are ordered by handle value.
    fn partial_cmp(&self, other: &Self) -> Option<Ordering> {
        if self.handle < other.handle {
            Some(Ordering::Less)
        } else if self.handle == other.handle {
            Some(Ordering::Equal)
        } else {
            Some(Ordering::Greater)
        }
    }
}

impl vstd::std_specs::cmp::PartialOrdSpecImpl for WlcOutput {
    open spec fn obeys_partial_cmp_spec() -> bool {
        true
    }

    open spec fn partial_cmp_spec(&self, other: &Self) -> Option<Ordering> {
        if self.handle < other.handle {
            Some(Ordering::Less)
        } else if self.handle == other.handle {
            Some(Ordering::Equal)
        } else {
            Some(Ordering::Greater)
        }
    }
}

/// The state a freshly constructed output has: the given handle and empty
/// defaults for everything else.
pub open spec fn is_default_output(o: WlcOutput, handle: u32) -> bool {
    &&& o.handle == handle
    &&& o.name@.len() == 0
    &&& o.sleep == false
    &&& o.scaling == 1
    &&& o.mask == 0
    &&& o.resolution is None
    &&& o.virtual_resolution is None
    &&& o.views@.len() == 0
}

/// The state a freshly constructed view has: the given handle and empty
/// defaults for everything else.
pub open spec fn is_default_view(v: WlcView, handle: u32) -> bool {
    &&& v.handle == handle
    &&& v.title@.len() == 0
    &&& v.class@.len() == 0
    &&& v.app_id@.len() == 0
    &&& v.pid == 0
    &&& is_default_output(v.output, 0)
    &&& v.geometry == Geometry::spec_zero()
    &&& v.visible_geometry == Geometry::spec_zero()
    &&& v.focused == false
    &&& v.mask == 0
    &&& v.view_type == ViewType::spec_empty()
    &&& v.view_state == ViewState::spec_empty()
}

impl WlcOutput {
    /// Creates an output with the given handle and empty defaults, for use
    /// when no live runtime is present.
    pub fn dummy(code: u32) -> (r: WlcOutput)
        ensures
            is_default_output(r, code),
    {
        WlcOutput {
            handle: code,
            name: String::new(),
            sleep: false,
            scaling: 1,
            mask: 0,
            resolution: None,
            virtual_resolution: None,
            views: Vec::new(),
        }
    }

    /// Reinterprets this output as a view with the same handle.
    ///
    /// The conversion is lossy: every attribute but the handle is replaced
    /// by the view defaults. It exists for interoperability with the shared
    /// handle namespace, not to equate a display with a window.
    pub fn as_view(self) -> (r: WlcView)
        ensures
            is_default_view(r, self.handle),
    {
        WlcView::dummy(self.handle)
    }

    /// User-data reads have no backing store without a live runtime:
    /// there is never any data.
    pub fn get_user_data<T>(&self) -> (r: Option<T>)
        ensures
            r is None,
    {
        None
    }

    /// User-data writes are not supported without a live runtime.
    pub fn set_user_data<T>(&self, _data: &T) -> (r: Result<(), HandleError>)
        ensures
            r == Err::<(), HandleError>(HandleError::NotSupported),
    {
        Err(HandleError::NotSupported)
    }

    /// Requests a redraw from the external renderer. A fire-and-forget
    /// signal: it carries no data and changes no local state.
    pub fn schedule_render(self) {
    }

    /// Lists the known outputs. Without a live runtime none are known, so
    /// the list is empty.
    pub fn list() -> (r: Vec<WlcOutput>)
        ensures
            r@.len() == 0,
    {
        Vec::new()
    }

    /// The output the compositor is focused on. Without a live runtime no
    /// output is focused, so there is no answer.
    pub fn focused() -> (r: Option<WlcOutput>)
        ensures
            r is None,
    {
        None
    }

    /// Returns the output's name.
    pub fn get_name(self) -> (r: String)
        ensures
            r == self.name,
    {
        self.name
    }

    /// Returns the output's sleep flag.
    pub fn get_sleep(self) -> (r: bool)
        ensures
            r == self.sleep,
    {
        self.sleep
    }

    /// Sets the output's sleep flag; nothing else changes.
    pub fn set_sleep(&mut self, sleep: bool)
        ensures
            *final(self) == (WlcOutput { sleep, ..*old(self) }),
    {
        self.sleep = sleep;
    }

    /// Returns the native resolution, absent until probed from a live
    /// runtime. Not affected by `set_resolution`.
    pub fn get_resolution(self) -> (r: Option<Size>)
        ensures
            r == self.resolution,
    {
        self.resolution
    }

    /// Returns the scale-adjusted resolution recorded by the last
    /// `set_resolution` call, or absent if none was made.
    pub fn get_virtual_resolution(self) -> (r: Option<Size>)
        ensures
            r == self.virtual_resolution,
    {
        self.virtual_resolution
    }

    /// The output after `set_resolution(size, scaling)`: the scale is
    /// replaced and the virtual resolution becomes the component-wise
    /// product; the native resolution and all other attributes stay.
    pub open spec fn spec_set_resolution(self, size: Size, scaling: u32) -> WlcOutput {
        WlcOutput {
            scaling,
            virtual_resolution: Some(
                Size { w: (size.w * scaling) as u32, h: (size.h * scaling) as u32 },
            ),
            ..self
        }
    }

    /// Sets the scale and records the virtual resolution as `size` scaled by
    /// `scaling`. The native resolution is left alone: it is only ever
    /// supplied externally, and is not recomputed if the scale changes later.
    pub fn set_resolution(&mut self, size: Size, scaling: u32)
        requires
            1 <= scaling,
            size.w * scaling <= u32::MAX,
            size.h * scaling <= u32::MAX,
        ensures
            *final(self) == old(self).spec_set_resolution(size, scaling),
    {
        self.scaling = scaling;
        self.virtual_resolution = Some(Size { w: size.w * scaling, h: size.h * scaling });
    }

    /// Returns the output's scale factor.
    pub fn get_scale(self) -> (r: u32)
        ensures
            r == self.scaling,
    {
        self.scaling
    }

    /// Returns the views assigned to this output, in stored stacking order.
    pub fn get_views(self) -> (r: Vec<WlcView>)
        ensures
            r == self.views,
    {
        self.views
    }

    /// Returns the output's visibility mask.
    pub fn get_mask(self) -> (r: u32)
        ensures
            r == self.mask,
    {
        self.mask
    }

    /// Sets the output's visibility mask; nothing else changes.
    pub fn set_mask(&mut self, mask: u32)
        ensures
            *final(self) == (WlcOutput { mask, ..*old(self) }),
    {
        self.mask = mask;
    }

    /// Returns the views assigned to this output. Kept for callers of the
    /// older name; the same as `get_views`.
    pub fn get_mutable_views(self) -> (r: Vec<WlcView>)
        ensures
            r == self.views,
    {
        self.get_views()
    }

    /// Replaces the view list wholesale, keeping the given order exactly:
    /// the one supported way to reorder or reassign membership in bulk.
    ///
    /// Against the local snapshot this always succeeds; the error path is
    /// reserved for a live-runtime backend refusing the new list, in which
    /// case the list is left unchanged.
    pub fn set_views(&mut self, views: Vec<WlcView>) -> (r: Result<(), HandleError>)
        ensures
            r == Ok::<(), HandleError>(()),
            *final(self) == (WlcOutput { views, ..*old(self) }),
    {
        self.views = views;
        Ok(())
    }

    /// Directs the compositor's output focus, or clears it with `None`.
    /// Without a live runtime there is nothing to direct: no local state
    /// changes.
    pub fn focus(_output: Option<WlcOutput>) {
    }
}

impl WlcView {
    /// Reinterprets this view as an output with the same handle.
    ///
    /// The conversion is lossy: every attribute but the handle is replaced
    /// by the output defaults. It exists for interoperability with the
    /// shared handle namespace, not to equate a window with a display.
    pub fn as_output(self) -> (r: WlcOutput)
        ensures
            is_default_output(r, self.handle),
    {
        WlcOutput::dummy(self.handle)
    }

    /// Creates a view with the given handle and empty defaults, for use
    /// when no live runtime is present.
    pub fn dummy(code: u32) -> (r: WlcView)
        ensures
            is_default_view(r, code),
    {
        WlcView {
            handle: code,
            title: String::new(),
            class: String::new(),
            app_id: String::new(),
            pid: 0,
            output: WlcOutput::dummy(0),
            geometry: Geometry::zero(),
            visible_geometry: Geometry::zero(),
            focused: false,
            mask: 0,
            view_type: ViewType::empty(),
            view_state: ViewState::empty(),
        }
    }

    /// Returns the root view (the desktop background): the view with the
    /// reserved handle 0.
    pub fn root() -> (r: WlcView)
        ensures
            is_default_view(r, 0),
            r.handle == 0,
    {
        WlcView::dummy(0)
    }

    /// Whether this view is the root view; holds exactly when the handle
    /// is 0.
    pub fn is_root(&self) -> (r: bool)
        ensures
            r == (self.handle == 0),
    {
        self.handle == 0
    }

    /// Whether this view is a real window: the exact opposite of `is_root`.
    pub fn is_window(&self) -> (r: bool)
        ensures
            r == (self.handle != 0),
    {
        self.handle != 0
    }

    /// User-data reads have no backing store without a live runtime:
    /// there is never any data.
    pub fn get_user_data<T>(&self) -> (r: Option<T>)
        ensures
            r is None,
    {
        None
    }

    /// User-data writes are not supported without a live runtime.
    pub fn set_user_data<T>(&self, _data: &T) -> (r: Result<(), HandleError>)
        ensures
            r == Err::<(), HandleError>(HandleError::NotSupported),
    {
        Err(HandleError::NotSupported)
    }

    /// Asks the runtime to close this view. Against the local snapshot this
    /// is a no-op: entities are never destroyed by this model.
    pub fn close(self) {
    }

    /// Returns the snapshot of the output this view is assigned to.
    pub fn get_output(self) -> (r: WlcOutput)
        ensures
            r == self.output,
    {
        self.output
    }

    /// Replaces the assigned output snapshot; nothing else changes.
    ///
    /// No check is made that the output's own view list contains this view:
    /// keeping the two sides consistent is the caller's transaction.
    pub fn set_output(&mut self, output: WlcOutput)
        ensures
            *final(self) == (WlcView { output, ..*old(self) }),
    {
        self.output = output;
    }

    /// Marks this view's local focus flag; nothing else changes. Other
    /// views are not defocused: single-focus enforcement is the
    /// collaborator's business.
    pub fn focus(&mut self)
        ensures
            *final(self) == (WlcView { focused: true, ..*old(self) }),
    {
        self.focused = true;
    }

    /// Asks the runtime to put this view at the back of the stacking order.
    /// Against the local snapshot this is a no-op.
    pub fn send_to_back(self) {
    }

    /// Asks the runtime to stack this view below `other`. Against the local
    /// snapshot this is a no-op.
    pub fn send_below(self, _other: WlcView) {
    }

    /// Asks the runtime to stack this view above `other`. Against the local
    /// snapshot this is a no-op.
    pub fn bring_above(self, _other: WlcView) {
    }

    /// Asks the runtime to put this view at the front of the stacking
    /// order. Against the local snapshot this is a no-op.
    pub fn bring_to_front(self) {
    }

    /// Returns the view's visibility mask.
    pub fn get_mask(self) -> (r: u32)
        ensures
            r == self.mask,
    {
        self.mask
    }

    /// Sets the view's visibility mask; nothing else changes.
    pub fn set_mask(&mut self, mask: u32)
        ensures
            *final(self) == (WlcView { mask, ..*old(self) }),
    {
        self.mask = mask;
    }

    /// Whether this view shows on `output`: their visibility masks overlap.
    pub open spec fn spec_visible_on(self, output: WlcOutput) -> bool {
        self.mask & output.mask != 0
    }

    /// Tests whether this view shows on `output`: the masks overlap.
    pub fn is_visible_on(&self, output: &WlcOutput) -> (r: bool)
        ensures
            r == self.spec_visible_on(*output),
    {
        self.mask & output.mask != 0
    }

    /// Returns the actual geometry, wrapped as present: the local snapshot
    /// always knows it. (A live backend may not yet, hence the option.)
    pub fn get_geometry(self) -> (r: Option<Geometry>)
        ensures
            r == Some(self.geometry),
    {
        Some(self.geometry)
    }

    /// Returns the geometry as currently rendered, which may differ from
    /// the actual geometry during transitions.
    pub fn get_visible_geometry(self) -> (r: Geometry)
        ensures
            r == self.visible_geometry,
    {
        self.visible_geometry
    }

    /// Replaces the actual geometry only; the visible geometry is what the
    /// renderer last drew and is not touched. `edges` is advisory resize
    /// metadata, accepted and ignored here.
    pub fn set_geometry(&mut self, _edges: ResizeEdge, geometry: Geometry)
        ensures
            *final(self) == (WlcView { geometry, ..*old(self) }),
    {
        self.geometry = geometry;
    }

    /// Returns the window-type flag set.
    pub fn get_type(self) -> (r: ViewType)
        ensures
            r == self.view_type,
    {
        self.view_type
    }

    /// Adds (`toggle` true) or clears (`toggle` false) the given type flag;
    /// nothing else changes. Repeated application is idempotent.
    pub fn set_type(&mut self, view_type: ViewType, toggle: bool)
        ensures
            toggle ==> *final(self) == (WlcView {
                view_type: old(self).view_type.spec_insert(view_type),
                ..*old(self)
            }),
            !toggle ==> *final(self) == (WlcView {
                view_type: old(self).view_type.spec_remove(view_type),
                ..*old(self)
            }),
    {
        if toggle {
            self.view_type.insert(view_type);
        } else {
            self.view_type.remove(view_type);
        }
    }

    /// Returns the window-state flag set.
    pub fn get_state(self) -> (r: ViewState)
        ensures
            r == self.view_state,
    {
        self.view_state
    }

    /// Adds (`toggle` true) or clears (`toggle` false) the given state flag;
    /// nothing else changes. Repeated application is idempotent.
    pub fn set_state(&mut self, state: ViewState, toggle: bool)
        ensures
            toggle ==> *final(self) == (WlcView {
                view_state: old(self).view_state.spec_insert(state),
                ..*old(self)
            }),
            !toggle ==> *final(self) == (WlcView {
                view_state: old(self).view_state.spec_remove(state),
                ..*old(self)
            }),
    {
        if toggle {
            self.view_state.insert(state);
        } else {
            self.view_state.remove(state);
        }
    }

    /// The parent/child view hierarchy is a deliberate gap: unsupported,
    /// signalled rather than faked.
    pub fn get_parent(self) -> (r: Result<WlcView, HandleError>)
        ensures
            r == Err::<WlcView, HandleError>(HandleError::NotSupported),
    {
        Err(HandleError::NotSupported)
    }

    /// The parent/child view hierarchy is a deliberate gap: unsupported,
    /// signalled rather than faked.
    pub fn set_parent(self, _parent: &WlcView) -> (r: Result<(), HandleError>)
        ensures
            r == Err::<(), HandleError>(HandleError::NotSupported),
    {
        Err(HandleError::NotSupported)
    }

    /// Returns the view's title.
    pub fn get_title(self) -> (r: String)
        ensures
            r == self.title,
    {
        self.title
    }

    /// Returns the view's window-manager class (shell surfaces only).
    pub fn get_class(self) -> (r: String)
        ensures
            r == self.class,
    {
        self.class
    }

    /// Returns the view's application id (xdg surfaces only).
    pub fn get_app_id(self) -> (r: String)
        ensures
            r == self.app_id,
    {
        self.app_id
    }

    /// Returns the id of the process owning this view.
    pub fn get_pid(self) -> (r: libc::pid_t)
        ensures
            r == self.pid,
    {
        self.pid
    }
}

/// After `set_resolution(size, scaling)` the virtual resolution reads back
/// as the component-wise product of `size` and `scaling`, while the native
/// resolution, the identity and the view list are untouched.
pub proof fn lemma_set_resolution_reads_back(o: WlcOutput, size: Size, scaling: u32)
    requires
        size.w * scaling <= u32::MAX,
        size.h * scaling <= u32::MAX,
    ensures
        o.spec_set_resolution(size, scaling).virtual_resolution == Some(
            Size { w: (size.w * scaling) as u32, h: (size.h * scaling) as u32 },
        ),
        o.spec_set_resolution(size, scaling).scaling == scaling,
        o.spec_set_resolution(size, scaling).resolution == o.resolution,
        o.spec_set_resolution(size, scaling).handle == o.handle,
        o.spec_set_resolution(size, scaling).views == o.views,
{
}

/// Converting a view to an output and back preserves the handle exactly,
/// and nothing else: every other attribute of the result is a default.
pub proof fn lemma_conversion_round_trip(v: WlcView, o: WlcOutput, w: WlcView)
    requires
        is_default_output(o, v.handle),
        is_default_view(w, o.handle),
    ensures
        w.handle == v.handle,
        is_default_view(w, v.handle),
{
}

/// Views with a smaller handle order strictly below views with a larger
/// one, and are never equal to them.
pub proof fn lemma_view_handle_ordering(a: WlcView, b: WlcView)
    requires
        a.handle < b.handle,
    ensures
        a.partial_cmp_spec(&b) == Some(Ordering::Less),
        !a.eq_spec(&b),
{
}

/// Outputs with a smaller handle order strictly below outputs with a larger
/// one, and are never equal to them.
pub proof fn lemma_output_handle_ordering(a: WlcOutput, b: WlcOutput)
    requires
        a.handle < b.handle,
    ensures
        a.partial_cmp_spec(&b) == Some(Ordering::Less),
        !a.eq_spec(&b),
{
}

} // verus!
