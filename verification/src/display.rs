use vstd::prelude::*;

verus! {

/// Where an output sits on the desktop and its logical size, in logical pixels.
#[derive(Debug, Clone, Copy, PartialEq, Eq)]
pub struct OutputGeometry {
    pub position: (i32, i32),
    pub size: (u32, u32),
}

/// The smallest rectangle, in logical pixels, that holds every output.
#[derive(Debug, Clone, Copy, PartialEq, Eq)]
pub struct DesktopBounds {
    pub left: i64,
    pub top: i64,
    pub right: i64,
    pub bottom: i64,
}

/// An extent as a `u32`, when it is one.
pub open spec fn as_extent(d: int) -> Option<u32> {
    if 0 <= d <= u32::MAX {
        Some(d as u32)
    } else {
        None
    }
}

impl DesktopBounds {
    /// Width of the desktop, when it is a `u32`.
    pub fn width(self) -> (width: Option<u32>)
        requires
            i64::MIN <= self.right - self.left <= i64::MAX,
        ensures
            width == as_extent(self.right - self.left),
    {
        let d = self.right - self.left;
        if 0 <= d && d <= u32::MAX as i64 {
            Some(d as u32)
        } else {
            None
        }
    }

    /// Height of the desktop, when it is a `u32`.
    pub fn height(self) -> (height: Option<u32>)
        requires
            i64::MIN <= self.bottom - self.top <= i64::MAX,
        ensures
            height == as_extent(self.bottom - self.top),
    {
        let d = self.bottom - self.top;
        if 0 <= d && d <= u32::MAX as i64 {
            Some(d as u32)
        } else {
            None
        }
    }

    /// The pixel rectangle `(x, y, width, height)` that `output` covers in a
    /// screenshot of the whole desktop, whose origin is the desktop's top-left corner.
    pub fn image_region(self, output: OutputGeometry) -> (region: Option<(u32, u32, u32, u32)>)
        requires
            i64::MIN <= output.position.0 - self.left <= i64::MAX,
            i64::MIN <= output.position.1 - self.top <= i64::MAX,
        ensures
            region == image_region_of(self, output),
    {
        let x = output.position.0 as i64 - self.left;
        let y = output.position.1 as i64 - self.top;
        if x < 0 || x > u32::MAX as i64 || y < 0 || y > u32::MAX as i64 {
            return None;
        }
        Some((x as u32, y as u32, output.size.0, output.size.1))
    }
}

/// The screenshot region of `output` when `bounds` is the whole desktop.
pub open spec fn image_region_of(bounds: DesktopBounds, output: OutputGeometry) -> Option<(u32, u32, u32, u32)> {
    match (as_extent(output.position.0 - bounds.left), as_extent(output.position.1 - bounds.top)) {
        (Some(x), Some(y)) => Some((x, y, output.size.0, output.size.1)),
        _ => None,
    }
}

/// The desktop rectangle covered by one output.
pub open spec fn output_bounds(geometry: OutputGeometry) -> DesktopBounds {
    DesktopBounds {
        left: geometry.position.0 as i64,
        top: geometry.position.1 as i64,
        right: (geometry.position.0 + geometry.size.0) as i64,
        bottom: (geometry.position.1 + geometry.size.1) as i64,
    }
}

/// The rectangle covered by one output.
pub fn bounds_for_output(geometry: OutputGeometry) -> (bounds: DesktopBounds)
    ensures
        bounds == output_bounds(geometry),
{
    let left = geometry.position.0 as i64;
    let top = geometry.position.1 as i64;
    DesktopBounds { left, top, right: left + geometry.size.0 as i64, bottom: top + geometry.size.1 as i64 }
}

/// The smallest rectangle holding both.
pub open spec fn union_bounds(a: DesktopBounds, b: DesktopBounds) -> DesktopBounds {
    DesktopBounds {
        left: if a.left <= b.left { a.left } else { b.left },
        top: if a.top <= b.top { a.top } else { b.top },
        right: if a.right >= b.right { a.right } else { b.right },
        bottom: if a.bottom >= b.bottom { a.bottom } else { b.bottom },
    }
}

/// The desktop bounds of a list of outputs: none for no output.
pub open spec fn desktop_bounds(geometries: Seq<OutputGeometry>) -> Option<DesktopBounds>
    decreases geometries.len(),
{
    if geometries.len() == 0 {
        None
    } else if geometries.len() == 1 {
        Some(output_bounds(geometries[0]))
    } else {
        match desktop_bounds(geometries.drop_last()) {
            Some(b) => Some(union_bounds(b, output_bounds(geometries.last()))),
            None => None,
        }
    }
}

/// A positive logical size.
pub open spec fn valid_size_of(size: Option<(i32, i32)>) -> Option<(u32, u32)> {
    match size {
        Some((w, h)) => if w > 0 && h > 0 { Some((w as u32, h as u32)) } else { None },
        None => None,
    }
}

/// The logical size as unsigned extents, when both are positive.
pub fn valid_size(size: Option<(i32, i32)>) -> (valid: Option<(u32, u32)>)
    ensures
        valid == valid_size_of(size),
{
    let (width, height) = match size {
        Some(s) => s,
        None => return None,
    };
    if width < 0 || height < 0 {
        return None;
    }
    let width = width as u32;
    let height = height as u32;
    if width == 0 || height == 0 {
        return None;
    }
    Some((width, height))
}


/// What a compositor reports of an output.
#[derive(Debug, Clone, Copy, PartialEq, Eq)]
pub struct OutputInfo {
    pub logical_position: Option<(i32, i32)>,
    pub logical_size: Option<(i32, i32)>,
}

/// A change to the set of outputs.
#[derive(Debug, Clone, Copy, PartialEq, Eq)]
pub enum OutputEvent {
    Created(Option<OutputInfo>),
    InfoUpdate(OutputInfo),
    Removed,
    /// Any other report, which changes nothing here.
    Other,
}

/// An output with the identifiers of its overlay window and its drop target.
#[derive(Debug, Clone, Copy, PartialEq, Eq)]
pub struct DisplayOutput {
    /// The key that the windowing glue gives this output.
    pub output: u64,
    pub overlay_id: u64,
    pub dnd_id: u128,
    pub geometry: OutputGeometry,
}

/// The known outputs, each once, in the order in which they appeared.
#[derive(Debug)]
pub struct DisplayState {
    outputs: Vec<DisplayOutput>,
    next_overlay_id: u64,
    next_dnd_id: u64,
}

/// Each output key occurs at most once.
pub open spec fn keys_unique(outputs: Seq<DisplayOutput>) -> bool {
    forall|i: int, j: int|
        0 <= i < outputs.len() && 0 <= j < outputs.len() && i != j ==> #[trigger] outputs[i].output
            != #[trigger] outputs[j].output
}

/// No two outputs share an overlay identifier or a drop-target identifier.
pub open spec fn ids_unique(outputs: Seq<DisplayOutput>) -> bool {
    forall|i: int, j: int|
        0 <= i < outputs.len() && 0 <= j < outputs.len() && i != j ==> #[trigger] outputs[i].overlay_id
            != #[trigger] outputs[j].overlay_id && outputs[i].dnd_id != outputs[j].dnd_id
}

/// Whether some output has this key.
pub open spec fn has_output(outputs: Seq<DisplayOutput>, key: u64) -> bool {
    exists|i: int| 0 <= i < outputs.len() && #[trigger] outputs[i].output == key
}

/// The outputs with the output of `key` given `position` and `size` where those are known.
pub open spec fn with_geometry(
    outputs: Seq<DisplayOutput>,
    key: u64,
    position: Option<(i32, i32)>,
    size: Option<(u32, u32)>,
) -> Seq<DisplayOutput> {
    outputs.map_values(
        |o: DisplayOutput|
            if o.output == key {
                DisplayOutput {
                    geometry: OutputGeometry {
                        position: match position {
                            Some(p) => p,
                            None => o.geometry.position,
                        },
                        size: match size {
                            Some(s) => s,
                            None => o.geometry.size,
                        },
                    },
                    ..o
                }
            } else {
                o
            },
    )
}

/// The outputs without the one of `key`.
pub open spec fn without_output(outputs: Seq<DisplayOutput>, key: u64) -> Seq<DisplayOutput> {
    outputs.filter(other_than(key))
}

/// Holds of every output but the one of `key`.
pub open spec fn other_than(key: u64) -> spec_fn(DisplayOutput) -> bool {
    |o: DisplayOutput| o.output != key
}

/// The geometries of the outputs, in order.
pub open spec fn geometries(outputs: Seq<DisplayOutput>) -> Seq<OutputGeometry> {
    outputs.map_values(|o: DisplayOutput| o.geometry)
}

impl DisplayState {
    /// The outputs, in the order in which they appeared.
    pub closed spec fn outputs_view(&self) -> Seq<DisplayOutput> {
        self.outputs@
    }

    /// The overlay identifier that the next new output gets.
    pub closed spec fn next_overlay(&self) -> u64 {
        self.next_overlay_id
    }

    /// The drop-target identifier that the next new output gets.
    pub closed spec fn next_dnd(&self) -> u64 {
        self.next_dnd_id
    }

    /// Keys are unique, and identifiers already handed out lie below the next ones.
    pub closed spec fn wf(&self) -> bool {
        &&& keys_unique(self.outputs@)
        &&& ids_unique(self.outputs@)
        &&& self.next_dnd_id >= 1
        &&& forall|i: int|
            0 <= i < self.outputs@.len() ==> #[trigger] self.outputs@[i].overlay_id
                < self.next_overlay_id && self.outputs@[i].dnd_id < self.next_dnd_id
    }

    /// No outputs yet.
    pub fn new() -> (state: Self)
        ensures
            state.wf(),
            state.outputs_view() == Seq::<DisplayOutput>::empty(),
            state.next_overlay() == 0,
            state.next_dnd() == 1,
    {
        DisplayState { outputs: Vec::new(), next_overlay_id: 0, next_dnd_id: 1 }
    }

    /// The outputs once the compositor reports `event` for the output `output`.
    pub open spec fn after_event(&self, event: OutputEvent, output: u64) -> Seq<DisplayOutput> {
        let outs = self.outputs_view();
        match event {
            OutputEvent::Created(Some(info)) => match (info.logical_position, valid_size_of(info.logical_size)) {
                (Some(p), Some(s)) => self.after_insert(output, OutputGeometry { position: p, size: s }),
                _ => outs,
            },
            OutputEvent::InfoUpdate(info) => if has_output(outs, output) {
                with_geometry(outs, output, info.logical_position, valid_size_of(info.logical_size))
            } else {
                match (info.logical_position, valid_size_of(info.logical_size)) {
                    (Some(p), Some(s)) => self.after_insert(output, OutputGeometry { position: p, size: s }),
                    _ => outs,
                }
            },
            OutputEvent::Removed => without_output(outs, output),
            _ => outs,
        }
    }

    /// The outputs once `output` is known to have `geometry`.
    pub open spec fn after_insert(&self, output: u64, geometry: OutputGeometry) -> Seq<DisplayOutput> {
        let outs = self.outputs_view();
        if has_output(outs, output) {
            with_geometry(outs, output, Some(geometry.position), Some(geometry.size))
        } else {
            outs.push(
                DisplayOutput {
                    output,
                    overlay_id: self.next_overlay(),
                    dnd_id: self.next_dnd() as u128,
                    geometry,
                },
            )
        }
    }

    /// Applies what the compositor reports of one output.
    pub fn handle_output_event(&mut self, event: OutputEvent, output: u64)
        requires
            old(self).wf(),
            old(self).next_overlay() < u64::MAX,
            old(self).next_dnd() < u64::MAX,
        ensures
            final(self).wf(),
            final(self).outputs_view() == old(self).after_event(event, output),
            old(self).next_overlay() <= final(self).next_overlay() <= old(self).next_overlay() + 1,
            old(self).next_dnd() <= final(self).next_dnd() <= old(self).next_dnd() + 1,
            sizes_positive(old(self).outputs_view()) ==> sizes_positive(final(self).outputs_view()),
    {
        proof {
            if sizes_positive(self.outputs_view()) {
                lemma_sizes_stay_positive(*self, event, output);
            }
        }
        match event {
            OutputEvent::Created(Some(info)) => {
                let position = match info.logical_position {
                    Some(p) => p,
                    None => return,
                };
                let size = match valid_size(info.logical_size) {
                    Some(s) => s,
                    None => return,
                };
                self.insert_output(output, OutputGeometry { position, size });
            },
            OutputEvent::InfoUpdate(info) => {
                if let Some(index) = self.find(output) {
                    let mut existing = self.outputs[index];
                    if let Some(position) = info.logical_position {
                        existing.geometry.position = position;
                    }
                    if let Some(size) = valid_size(info.logical_size) {
                        existing.geometry.size = size;
                    }
                    self.outputs.set(index, existing);
                    proof {
                        assert(self.outputs@ =~= with_geometry(
                            old(self).outputs@,
                            output,
                            info.logical_position,
                            valid_size_of(info.logical_size),
                        ));
                    }
                    return;
                }
                let position = match info.logical_position {
                    Some(p) => p,
                    None => return,
                };
                let size = match valid_size(info.logical_size) {
                    Some(s) => s,
                    None => return,
                };
                self.insert_output(output, OutputGeometry { position, size });
            },
            OutputEvent::Removed => {
                self.remove(output);
            },
            _ => {},
        }
    }

    /// The index of the output with this key.
    fn find(&self, output: u64) -> (index: Option<usize>)
        requires
            self.wf(),
        ensures
            match index {
                Some(i) => i < self.outputs@.len() && self.outputs@[i as int].output == output,
                None => !has_output(self.outputs@, output),
            },
    {
        let mut i: usize = 0;
        while i < self.outputs.len()
            invariant
                i <= self.outputs@.len(),
                forall|k: int| 0 <= k < i ==> self.outputs@[k].output != output,
            decreases self.outputs@.len() - i,
        {
            if self.outputs[i].output == output {
                return Some(i);
            }
            i = i + 1;
        }
        None
    }

    fn insert_output(&mut self, output: u64, geometry: OutputGeometry)
        requires
            old(self).wf(),
            old(self).next_overlay() < u64::MAX,
            old(self).next_dnd() < u64::MAX,
        ensures
            final(self).wf(),
            final(self).outputs_view() == old(self).after_insert(output, geometry),
            old(self).next_overlay() <= final(self).next_overlay() <= old(self).next_overlay() + 1,
            old(self).next_dnd() <= final(self).next_dnd() <= old(self).next_dnd() + 1,
    {
        if let Some(index) = self.find(output) {
            let mut existing = self.outputs[index];
            existing.geometry = geometry;
            self.outputs.set(index, existing);
            proof {
                assert(self.outputs@ =~= with_geometry(
                    old(self).outputs@,
                    output,
                    Some(geometry.position),
                    Some(geometry.size),
                ));
            }
            return;
        }
        let overlay_id = self.next_overlay_id;
        let dnd_id = self.next_dnd_id;
        self.next_overlay_id = self.next_overlay_id + 1;
        self.next_dnd_id = self.next_dnd_id + 1;
        self.outputs.push(DisplayOutput { output, overlay_id, dnd_id: dnd_id as u128, geometry });
    }

    fn remove(&mut self, output: u64)
        requires
            old(self).wf(),
        ensures
            final(self).wf(),
            final(self).outputs_view() == without_output(old(self).outputs_view(), output),
            final(self).next_overlay() == old(self).next_overlay(),
            final(self).next_dnd() == old(self).next_dnd(),
    {
        let ghost pred = other_than(output);
        let mut kept: Vec<DisplayOutput> = Vec::new();
        let mut i: usize = 0;
        while i < self.outputs.len()
            invariant
                self.wf(),
                pred == other_than(output),
                i <= self.outputs@.len(),
                kept@ == self.outputs@.take(i as int).filter(pred),
                keys_unique(kept@),
                ids_unique(kept@),
                forall|a: int|
                    0 <= a < kept@.len() ==> exists|k: int|
                        0 <= k < i && #[trigger] kept@[a] == self.outputs@[k],
            decreases self.outputs@.len() - i,
        {
            proof {
                assert(self.outputs@.take(i + 1) =~= self.outputs@.take(i as int).push(self.outputs@[i as int]));
                self.outputs@.take(i as int).lemma_filter_push(self.outputs@[i as int], pred);
                assert(pred(self.outputs@[i as int]) == (self.outputs@[i as int].output != output));
            }
            if self.outputs[i].output != output {
                let ghost before = kept@;
                kept.push(self.outputs[i]);
                proof {
                    assert forall|a: int| 0 <= a < before.len() implies #[trigger] before[a].output
                        != self.outputs@[i as int].output && before[a].overlay_id != self.outputs@[i as int].overlay_id
                        && before[a].dnd_id != self.outputs@[i as int].dnd_id by {
                        let k = choose|k: int| 0 <= k < i && before[a] == self.outputs@[k];
                    }
                    assert forall|a: int|
                        0 <= a < kept@.len() implies exists|k: int|
                        0 <= k < i + 1 && #[trigger] kept@[a] == self.outputs@[k] by {
                        if a < before.len() {
                            let k = choose|k: int| 0 <= k < i && before[a] == self.outputs@[k];
                            assert(kept@[a] == self.outputs@[k]);
                        } else {
                            assert(kept@[a] == self.outputs@[i as int]);
                        }
                    }
                }
            }
            i = i + 1;
        }
        proof {
            assert(self.outputs@.take(i as int) =~= self.outputs@);
            assert forall|a: int| 0 <= a < kept@.len() implies #[trigger] kept@[a].overlay_id
                < self.next_overlay_id && kept@[a].dnd_id < self.next_dnd_id by {
                let k = choose|k: int| 0 <= k < i && kept@[a] == self.outputs@[k];
            }
        }
        self.outputs = kept;
    }

    /// The known outputs, in the order in which they appeared.
    pub fn outputs(&self) -> (outputs: &[DisplayOutput])
        ensures
            outputs@ == self.outputs_view(),
    {
        self.outputs.as_slice()
    }

    /// How many outputs are known.
    pub fn len(&self) -> (n: usize)
        ensures
            n == self.outputs_view().len(),
    {
        self.outputs.len()
    }

    /// The output, when there is exactly one.
    pub fn single_output(&self) -> (single: Option<&DisplayOutput>)
        ensures
            match single {
                Some(o) => self.outputs_view().len() == 1 && *o == self.outputs_view()[0],
                None => self.outputs_view().len() != 1,
            },
    {
        if self.outputs.len() == 1 {
            Some(&self.outputs[0])
        } else {
            None
        }
    }

    /// The output whose overlay window is `id`.
    pub fn output_for_overlay(&self, id: u64) -> (found: Option<&DisplayOutput>)
        requires
            self.wf(),
        ensures
            match found {
                Some(o) => self.outputs_view().contains(*o) && o.overlay_id == id,
                None => forall|i: int|
                    0 <= i < self.outputs_view().len() ==> #[trigger] self.outputs_view()[i].overlay_id
                        != id,
            },
    {
        let mut i: usize = 0;
        while i < self.outputs.len()
            invariant
                i <= self.outputs@.len(),
                forall|k: int| 0 <= k < i ==> #[trigger] self.outputs@[k].overlay_id != id,
            decreases self.outputs@.len() - i,
        {
            if self.outputs[i].overlay_id == id {
                assert(self.outputs@[i as int] == self.outputs@[i as int]);
                return Some(&self.outputs[i]);
            }
            i = i + 1;
        }
        None
    }

    /// The overlay window identifiers, in output order.
    pub fn overlay_ids(&self) -> (ids: Vec<u64>)
        ensures
            ids@ == self.outputs_view().map_values(|o: DisplayOutput| o.overlay_id),
    {
        let mut ids: Vec<u64> = Vec::new();
        let mut i: usize = 0;
        while i < self.outputs.len()
            invariant
                i <= self.outputs@.len(),
                ids@ == self.outputs@.take(i as int).map_values(|o: DisplayOutput| o.overlay_id),
            decreases self.outputs@.len() - i,
        {
            ids.push(self.outputs[i].overlay_id);
            i = i + 1;
            assert(ids@ =~= self.outputs@.take(i as int).map_values(|o: DisplayOutput| o.overlay_id));
        }
        assert(self.outputs@.take(i as int) =~= self.outputs@);
        ids
    }

    /// The smallest rectangle holding every output; none when there is no output.
    pub fn bounds(&self) -> (bounds: Option<DesktopBounds>)
        ensures
            bounds == desktop_bounds(geometries(self.outputs_view())),
    {
        if self.outputs.len() == 0 {
            return None;
        }
        let mut bounds = bounds_for_output(self.outputs[0].geometry);
        proof {
            assert(geometries(self.outputs@.take(1)) =~= seq![self.outputs@[0].geometry]);
        }
        let mut i: usize = 1;
        while i < self.outputs.len()
            invariant
                1 <= i <= self.outputs@.len(),
                desktop_bounds(geometries(self.outputs@.take(i as int))) == Some(bounds),
            decreases self.outputs@.len() - i,
        {
            let rect = bounds_for_output(self.outputs[i].geometry);
            if rect.left < bounds.left {
                bounds.left = rect.left;
            }
            if rect.top < bounds.top {
                bounds.top = rect.top;
            }
            if rect.right > bounds.right {
                bounds.right = rect.right;
            }
            if rect.bottom > bounds.bottom {
                bounds.bottom = rect.bottom;
            }
            proof {
                let g = geometries(self.outputs@.take(i + 1));
                assert(g.drop_last() =~= geometries(self.outputs@.take(i as int)));
                assert(g.last() == self.outputs@[i as int].geometry);
            }
            i = i + 1;
        }
        assert(self.outputs@.take(i as int) =~= self.outputs@);
        Some(bounds)
    }
}

} // verus!

verus! {

/// The desktop bounds exist exactly when there is an output; they hold every
/// output's rectangle, and each of their four edges is an edge of some output.
pub proof fn lemma_bounds_hold_every_output(gs: Seq<OutputGeometry>)
    ensures
        desktop_bounds(gs) is Some <==> gs.len() > 0,
        desktop_bounds(gs) matches Some(b) ==> {
            &&& forall|i: int|
                0 <= i < gs.len() ==> {
                    let r = output_bounds(#[trigger] gs[i]);
                    b.left <= r.left && b.top <= r.top && r.right <= b.right && r.bottom <= b.bottom
                }
            &&& exists|i: int| 0 <= i < gs.len() && #[trigger] output_bounds(gs[i]).left == b.left
            &&& exists|i: int| 0 <= i < gs.len() && #[trigger] output_bounds(gs[i]).top == b.top
            &&& exists|i: int| 0 <= i < gs.len() && #[trigger] output_bounds(gs[i]).right == b.right
            &&& exists|i: int| 0 <= i < gs.len() && #[trigger] output_bounds(gs[i]).bottom == b.bottom
        },
    decreases gs.len(),
{
    if gs.len() > 1 {
        let init = gs.drop_last();
        lemma_bounds_hold_every_output(init);
        let b0 = desktop_bounds(init).unwrap();
        let b = desktop_bounds(gs).unwrap();
        let last = gs.len() - 1;
        assert forall|i: int| 0 <= i < gs.len() implies {
            let r = output_bounds(#[trigger] gs[i]);
            b.left <= r.left && b.top <= r.top && r.right <= b.right && r.bottom <= b.bottom
        } by {
            if i < last {
                assert(gs[i] == init[i]);
            }
        }
        if b.left == b0.left {
            let k = choose|k: int| 0 <= k < init.len() && #[trigger] output_bounds(init[k]).left == b0.left;
            assert(gs[k] == init[k]);
        } else {
            assert(output_bounds(gs[last]).left == b.left);
        }
        if b.top == b0.top {
            let k = choose|k: int| 0 <= k < init.len() && #[trigger] output_bounds(init[k]).top == b0.top;
            assert(gs[k] == init[k]);
        } else {
            assert(output_bounds(gs[last]).top == b.top);
        }
        if b.right == b0.right {
            let k = choose|k: int| 0 <= k < init.len() && #[trigger] output_bounds(init[k]).right == b0.right;
            assert(gs[k] == init[k]);
        } else {
            assert(output_bounds(gs[last]).right == b.right);
        }
        if b.bottom == b0.bottom {
            let k = choose|k: int| 0 <= k < init.len() && #[trigger] output_bounds(init[k]).bottom == b0.bottom;
            assert(gs[k] == init[k]);
        } else {
            assert(output_bounds(gs[last]).bottom == b.bottom);
        }
    } else if gs.len() == 1 {
        assert(output_bounds(gs[0]).left == desktop_bounds(gs).unwrap().left);
        assert(output_bounds(gs[0]).top == desktop_bounds(gs).unwrap().top);
        assert(output_bounds(gs[0]).right == desktop_bounds(gs).unwrap().right);
        assert(output_bounds(gs[0]).bottom == desktop_bounds(gs).unwrap().bottom);
    }
}

/// Every output has a region in the screenshot of the whole desktop: it starts
/// at the output's offset from the desktop's top-left corner, has the output's
/// size, and lies inside the desktop.
pub proof fn lemma_every_output_has_image_region(gs: Seq<OutputGeometry>, i: int)
    requires
        0 <= i < gs.len(),
    ensures
        desktop_bounds(gs) matches Some(b) && image_region_of(b, gs[i]) == Some(
            (
                (gs[i].position.0 - b.left) as u32,
                (gs[i].position.1 - b.top) as u32,
                gs[i].size.0,
                gs[i].size.1,
            ),
        ) && gs[i].position.0 - b.left + gs[i].size.0 <= b.right - b.left
            && gs[i].position.1 - b.top + gs[i].size.1 <= b.bottom - b.top,
{
    lemma_bounds_hold_every_output(gs);
    let b = desktop_bounds(gs).unwrap();
    assert(output_bounds(gs[i]).left >= b.left);
    let k = choose|k: int| 0 <= k < gs.len() && #[trigger] output_bounds(gs[k]).left == b.left;
    let m = choose|m: int| 0 <= m < gs.len() && #[trigger] output_bounds(gs[m]).top == b.top;
    assert(output_bounds(gs[i]).top >= b.top);
}

/// A removed output is gone, and the others stay in order.
pub proof fn lemma_removed_output_is_gone(state: DisplayState, output: u64)
    ensures
        !has_output(state.after_event(OutputEvent::Removed, output), output),
{
    let outs = state.outputs_view();
    let f = outs.filter(other_than(output));
    assert forall|a: int| 0 <= a < f.len() implies #[trigger] f[a].output != output by {
        outs.lemma_filter_pred(other_than(output), a);
    }
}

/// An output reported with a position and a positive size is then known once, with that geometry.
pub proof fn lemma_reported_output_is_known(state: DisplayState, info: OutputInfo, output: u64)
    requires
        state.wf(),
        info.logical_position is Some,
        valid_size_of(info.logical_size) is Some,
    ensures
        ({
            let after = state.after_event(OutputEvent::Created(Some(info)), output);
            let g = OutputGeometry {
                position: info.logical_position.unwrap(),
                size: valid_size_of(info.logical_size).unwrap(),
            };
            &&& keys_unique(after)
            &&& exists|i: int| 0 <= i < after.len() && #[trigger] after[i].output == output && after[i].geometry == g
        }),
{
    let outs = state.outputs_view();
    let g = OutputGeometry {
        position: info.logical_position.unwrap(),
        size: valid_size_of(info.logical_size).unwrap(),
    };
    let after = state.after_event(OutputEvent::Created(Some(info)), output);
    if has_output(outs, output) {
        let i = choose|i: int| 0 <= i < outs.len() && #[trigger] outs[i].output == output;
        assert(after[i].output == output && after[i].geometry == g);
    } else {
        let i = outs.len() as int;
        assert(after[i].output == output && after[i].geometry == g);
        assert forall|a: int, b: int|
            0 <= a < after.len() && 0 <= b < after.len() && a != b implies #[trigger] after[a].output
            != #[trigger] after[b].output by {
            if a < i && b < i {
                assert(after[a] == outs[a] && after[b] == outs[b]);
            } else if a < i {
                assert(after[a] == outs[a]);
            } else {
                assert(after[b] == outs[b]);
            }
        }
    }
}

/// Every output has a positive width and height.
pub open spec fn sizes_positive(outputs: Seq<DisplayOutput>) -> bool {
    forall|i: int|
        0 <= i < outputs.len() ==> #[trigger] outputs[i].geometry.size.0 > 0 && outputs[i].geometry.size.1 > 0
}

/// Output sizes stay positive: a report only ever gives an output a positive
/// size, and a new state starts with no output.
pub proof fn lemma_sizes_stay_positive(state: DisplayState, event: OutputEvent, output: u64)
    requires
        sizes_positive(state.outputs_view()),
    ensures
        sizes_positive(state.after_event(event, output)),
{
    let outs = state.outputs_view();
    let after = state.after_event(event, output);
    assert forall|i: int| 0 <= i < after.len() implies #[trigger] after[i].geometry.size.0 > 0
        && after[i].geometry.size.1 > 0 by {
        match event {
            OutputEvent::Removed => {
                let f = outs.filter(other_than(output));
                outs.lemma_filter_contains_rev(other_than(output), f[i]);
                assert(f.contains(f[i]));
                let k = choose|k: int| 0 <= k < outs.len() && outs[k] == f[i];
            },
            _ => {
                if i < outs.len() {
                    assert(outs[i].geometry.size.0 > 0 && outs[i].geometry.size.1 > 0);
                }
            },
        }
    }
}

/// The outputs of a well-formed state have distinct keys.
pub proof fn lemma_keys_unique(state: DisplayState)
    requires
        state.wf(),
    ensures
        keys_unique(state.outputs_view()),
{
}

/// A report about an output that is already known changes it in place: the
/// list keeps its length, and every entry its key and identifiers.
pub proof fn lemma_known_output_updates_in_place(state: DisplayState, event: OutputEvent, output: u64)
    requires
        has_output(state.outputs_view(), output),
        event is Created || event is InfoUpdate,
    ensures
        ({
            let outs = state.outputs_view();
            let after = state.after_event(event, output);
            &&& after.len() == outs.len()
            &&& forall|i: int|
                0 <= i < outs.len() ==> #[trigger] after[i].output == outs[i].output && after[i].overlay_id
                    == outs[i].overlay_id && after[i].dnd_id == outs[i].dnd_id
        }),
{
}

/// An output is added only when a report gives it a position and a positive size.
pub proof fn lemma_added_only_when_placed(state: DisplayState, event: OutputEvent, output: u64)
    ensures
        state.after_event(event, output).len() > state.outputs_view().len() ==> match event {
            OutputEvent::Created(Some(info)) => info.logical_position is Some && valid_size_of(
                info.logical_size,
            ) is Some,
            OutputEvent::InfoUpdate(info) => info.logical_position is Some && valid_size_of(info.logical_size)
                is Some,
            _ => false,
        },
{
    if event is Removed {
        state.outputs_view().lemma_filter_len(other_than(output));
    }
}

} // verus!
