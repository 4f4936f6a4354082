use vstd::prelude::*;
use crate::gb::Gb;
use vstd::string::StringSliceAdditionalSpecFns;

verus! {

/// The register signature (B, C, D, E, H, L) of a passed Mooneye test: the Fibonacci
/// numbers 3, 5, 8, 13, 21, 34.
pub const MOONEYE_PASS_REGISTERS: [u8; 6] = [3, 5, 8, 13, 21, 34];

/// The register signature of a failed Mooneye test.
pub const MOONEYE_FAIL_REGISTERS: [u8; 6] = [0x42, 0x42, 0x42, 0x42, 0x42, 0x42];

/// The default number of emulation steps a visual capture may take.
pub const DEFAULT_VISUAL_STEP_LIMIT: usize = 3000000;

/// When a visual capture run stops.
pub enum VisualStopCondition {
    /// After `frames` completed frames.
    Frames { frames: usize },
    /// When the opcode at PC is `opcode`, after `min_frames` frames, with B = `register_b`
    /// where one is given.
    OpcodeBreakpoint { opcode: u8, min_frames: usize, register_b: Option<u8> },
    /// When the serial output contains `needle`.
    SerialContains { needle: String },
    /// When a Mooneye test reaches its final `ld b, b` (opcode 0x40) with its pass or fail
    /// register signature, after `min_steps` steps.
    MooneyeResult { min_steps: usize },
    /// When the serial output (at least `min_serial_bytes` long) has not changed for
    /// `quiet_steps` steps, after `min_steps` steps.
    SerialQuietSteps { quiet_steps: usize, min_steps: usize, min_serial_bytes: usize },
    /// When the serial output (at least `min_serial_bytes` long) has not changed for
    /// `quiet_frames` frames, after `min_frames` frames.
    SerialQuietFrames { quiet_frames: usize, min_frames: usize, min_serial_bytes: usize },
    /// When the screen has not changed for `quiet_frames` frames, after `min_frames` frames.
    ScreenQuietFrames { quiet_frames: usize, min_frames: usize },
    /// When the first of `conditions` that holds does.
    Any { conditions: Vec<VisualStopCondition> },
}

/// How a visual capture run ended.
#[derive(PartialEq, Eq, Structural, Clone, Copy, Debug)]
pub enum VisualCaptureOutcome {
    StopConditionMet,
    StepLimitReached,
}

impl VisualCaptureOutcome {
    pub open spec fn label(self) -> &'static str {
        match self {
            VisualCaptureOutcome::StopConditionMet => "stop-condition-met",
            VisualCaptureOutcome::StepLimitReached => "step-limit-reached",
        }
    }

    pub fn as_str(self) -> (r: &'static str)
        ensures
            r == self.label(),
    {
        match self {
            VisualCaptureOutcome::StopConditionMet => "stop-condition-met",
            VisualCaptureOutcome::StepLimitReached => "step-limit-reached",
        }
    }
}

/// The screen a capture ends on: DMG shades, or CGB RGB colors.
pub enum CapturedScreen {
    Dmg(Vec<u8>),
    Cgb(Vec<[u8; 3]>),
}

/// The DMG screen, row by row.
pub fn capture_dmg_screen(screen: &[[u8; 160]; 144]) -> (r: CapturedScreen)
    ensures
        r matches CapturedScreen::Dmg(pixels) && pixels@.len() == 160 * 144 && forall|y: int, x: int|
            0 <= y < 144 && 0 <= x < 160 ==> #[trigger] pixels@[y * 160 + x] == screen[y][x],
{
    let mut pixels: Vec<u8> = Vec::new();
    let mut y: usize = 0;
    while y < 144
        invariant
            y <= 144,
            pixels@.len() == y * 160,
            forall|yy: int, x: int| 0 <= yy < y && 0 <= x < 160 ==> #[trigger] pixels@[yy * 160 + x] == screen[yy][x],
        decreases 144 - y,
    {
        let mut x: usize = 0;
        while x < 160
            invariant
                y < 144,
                x <= 160,
                pixels@.len() == y * 160 + x,
                forall|yy: int, xx: int| 0 <= yy < y && 0 <= xx < 160 ==> #[trigger] pixels@[yy * 160 + xx] == screen[yy][xx],
                forall|xx: int| 0 <= xx < x ==> #[trigger] pixels@[y * 160 + xx] == screen[y as int][xx],
            decreases 160 - x,
        {
            pixels.push(screen[y][x]);
            x = x + 1;
        }
        y = y + 1;
    }
    CapturedScreen::Dmg(pixels)
}

/// B, C, D, E, H, L.
pub fn mooneye_register_signature(gb: &Gb) -> (r: [u8; 6])
    ensures
        r@ == gb.cpu.registers@.subrange(2, 8),
{
    let r = [gb.cpu.b(), gb.cpu.c(), gb.cpu.d(), gb.cpu.e(), gb.cpu.h(), gb.cpu.l()];
    assert(r@ =~= gb.cpu.registers@.subrange(2, 8));
    r
}

/// Whether `needle` occurs in `hay` starting at byte `i`.
pub open spec fn occurs_at(hay: Seq<u8>, needle: Seq<u8>, i: int) -> bool {
    0 <= i && i + needle.len() <= hay.len() && hay.subrange(i, i + needle.len()) == needle
}

/// Whether `needle` occurs in `hay`.
pub open spec fn contains_bytes(hay: Seq<u8>, needle: Seq<u8>) -> bool {
    exists|i: int| occurs_at(hay, needle, i)
}

fn occurs_at_exec(hay: &[u8], needle: &[u8], i: usize) -> (r: bool)
    requires
        i + needle@.len() <= hay@.len(),
    ensures
        r == occurs_at(hay@, needle@, i as int),
{
    let hay_len = hay.len();
    let mut k: usize = 0;
    while k < needle.len()
        invariant
            i + needle@.len() <= hay@.len(),
            hay_len == hay@.len(),
            k <= needle@.len(),
            forall|t: int| 0 <= t < k ==> hay@[i + t] == needle@[t],
        decreases needle@.len() - k,
    {
        if hay[i + k] != needle[k] {
            assert(hay@.subrange(i as int, i + needle@.len())[k as int] != needle@[k as int]);
            return false;
        }
        k = k + 1;
    }
    assert(hay@.subrange(i as int, i + needle@.len()) =~= needle@);
    true
}

/// Whether `needle` occurs in `hay`, as `str::contains` matches.
pub fn bytes_contain(hay: &[u8], needle: &[u8]) -> (r: bool)
    ensures
        r == contains_bytes(hay@, needle@),
{
    if needle.len() > hay.len() {
        assert forall|i: int| !occurs_at(hay@, needle@, i) by {}
        return false;
    }
    let last = hay.len() - needle.len();
    let mut i: usize = 0;
    while i < last
        invariant
            last == hay@.len() - needle@.len(),
            i <= last,
            forall|j: int| 0 <= j < i ==> !occurs_at(hay@, needle@, j),
        decreases last - i,
    {
        if occurs_at_exec(hay, needle, i) {
            return true;
        }
        i = i + 1;
    }
    if occurs_at_exec(hay, needle, last) {
        return true;
    }
    assert forall|j: int| !occurs_at(hay@, needle@, j) by {
        if 0 <= j < i {
        }
    }
    false
}

/// What a stop condition is judged on at a step.
pub struct StopInputs {
    pub register_b: u8,
    pub signature: Seq<u8>,
    pub opcode: u8,
    pub completed_frames: usize,
    pub executed_steps: usize,
    pub serial_output: Seq<u8>,
    pub steps_since_serial_change: Option<usize>,
    pub frames_since_serial_change: Option<usize>,
    pub frames_since_screen_change: Option<usize>,
}

/// At least `n` of a quiet count that exists.
pub open spec fn quiet_for(count: Option<usize>, n: usize) -> bool {
    count matches Some(c) && c >= n
}

impl VisualStopCondition {
    /// Whether the run stops here (`Some`), with the summary a Mooneye result gives.
    pub open spec fn stop_spec(self, inputs: StopInputs) -> Option<Option<Seq<char>>>
        decreases self, 1int, 0int,
    {
        match self {
            VisualStopCondition::Frames { frames } => if inputs.completed_frames >= frames {
                Some(None)
            } else {
                None
            },
            VisualStopCondition::OpcodeBreakpoint { opcode, min_frames, register_b } => if inputs.opcode == opcode
                && inputs.completed_frames >= min_frames && (register_b matches Some(b) ==> inputs.register_b == b) {
                Some(None)
            } else {
                None
            },
            VisualStopCondition::SerialContains { needle } => if contains_bytes(inputs.serial_output, vstd::utf8::encode_utf8(needle@)) {
                Some(None)
            } else {
                None
            },
            VisualStopCondition::MooneyeResult { min_steps } => if inputs.executed_steps < min_steps || inputs.opcode != 0x40 {
                None
            } else if inputs.signature == MOONEYE_PASS_REGISTERS@ {
                Some(Some("mooneye: pass"@))
            } else if inputs.signature == MOONEYE_FAIL_REGISTERS@ {
                Some(Some("mooneye: fail"@))
            } else {
                None
            },
            VisualStopCondition::SerialQuietSteps { quiet_steps, min_steps, min_serial_bytes } => if inputs.serial_output.len() as usize
                >= min_serial_bytes && inputs.executed_steps >= min_steps && quiet_for(inputs.steps_since_serial_change, quiet_steps) {
                Some(None)
            } else {
                None
            },
            VisualStopCondition::SerialQuietFrames { quiet_frames, min_frames, min_serial_bytes } => if inputs.serial_output.len() as usize
                >= min_serial_bytes && inputs.completed_frames >= min_frames && quiet_for(
                inputs.frames_since_serial_change,
                quiet_frames,
            ) {
                Some(None)
            } else {
                None
            },
            VisualStopCondition::ScreenQuietFrames { quiet_frames, min_frames } => if inputs.completed_frames >= min_frames
                && quiet_for(inputs.frames_since_screen_change, quiet_frames) {
                Some(None)
            } else {
                None
            },
            VisualStopCondition::Any { conditions } => Self::first_stop(self, inputs, 0),
        }
    }

    /// The verdict of the first of an `Any`'s conditions from index `i` on that stops.
    pub open spec fn first_stop(any: VisualStopCondition, inputs: StopInputs, i: int) -> Option<Option<Seq<char>>>
        decreases any, 0int, (if any is Any { any->conditions@.len() - i } else { 0 }),
        when i >= 0
    {
        match any {
            VisualStopCondition::Any { conditions } => if i >= conditions@.len() {
                None
            } else {
                proof {
                    assert(decreases_to!(any => conditions));
                    assert(decreases_to!(conditions => conditions@));
                    assert(decreases_to!(conditions@ => conditions@[i]));
                }
                match conditions@[i].stop_spec(inputs) {
                    Some(r) => Some(r),
                    None => Self::first_stop(any, inputs, i + 1),
                }
            },
            _ => None,
        }
    }
}

fn same_signature(a: &[u8; 6], b: &[u8; 6]) -> (r: bool)
    ensures
        r == (a@ == b@),
{
    let mut i: usize = 0;
    while i < 6
        invariant
            i <= 6,
            forall|j: int| 0 <= j < i ==> a@[j] == b@[j],
        decreases 6 - i,
    {
        if a[i] != b[i] {
            return false;
        }
        i = i + 1;
    }
    assert(a@ =~= b@);
    true
}

/// A verdict with its summary text taken as characters.
pub open spec fn verdict_view(r: Option<Option<String>>) -> Option<Option<Seq<char>>> {
    match r {
        Some(Some(s)) => Some(Some(s@)),
        Some(None) => Some(None),
        None => None,
    }
}

/// At least `n` of a quiet count that exists.
fn quiet_at_least(count: Option<usize>, n: usize) -> (r: bool)
    ensures
        r == quiet_for(count, n),
{
    match count {
        Some(c) => c >= n,
        None => false,
    }
}

impl VisualStopCondition {
    /// Whether the capture run stops at this step (`Some`), with the summary a Mooneye
    /// result gives (`Some(Some(..))`).
    pub fn evaluate(
        &self,
        gb: &Gb,
        opcode: u8,
        completed_frames: usize,
        executed_steps: usize,
        serial_output: &str,
        steps_since_serial_change: Option<usize>,
        frames_since_serial_change: Option<usize>,
        frames_since_screen_change: Option<usize>,
    ) -> (r: Option<Option<String>>)
        ensures
            verdict_view(r) == self.stop_spec(
                StopInputs {
                    register_b: gb.cpu.registers@[2],
                    signature: gb.cpu.registers@.subrange(2, 8),
                    opcode,
                    completed_frames,
                    executed_steps,
                    serial_output: serial_output.spec_bytes(),
                    steps_since_serial_change,
                    frames_since_serial_change,
                    frames_since_screen_change,
                },
            ),
        decreases self,
    {
        let ghost inputs = StopInputs {
            register_b: gb.cpu.registers@[2],
            signature: gb.cpu.registers@.subrange(2, 8),
            opcode,
            completed_frames,
            executed_steps,
            serial_output: serial_output.spec_bytes(),
            steps_since_serial_change,
            frames_since_serial_change,
            frames_since_screen_change,
        };
        match self {
            VisualStopCondition::Frames { frames } => {
                if completed_frames >= *frames {
                    Some(None)
                } else {
                    None
                }
            },
            VisualStopCondition::OpcodeBreakpoint { opcode: expected_opcode, min_frames, register_b } => {
                let b_matches = match register_b {
                    Some(expected_b) => gb.cpu.b() == *expected_b,
                    None => true,
                };
                if opcode == *expected_opcode && completed_frames >= *min_frames && b_matches {
                    Some(None)
                } else {
                    None
                }
            },
            VisualStopCondition::SerialContains { needle } => {
                let found = bytes_contain(serial_output.as_bytes(), needle.as_str().as_bytes());
                if found {
                    Some(None)
                } else {
                    None
                }
            },
            VisualStopCondition::MooneyeResult { min_steps } => {
                if executed_steps < *min_steps || opcode != 0x40 {
                    return None;
                }
                let signature = mooneye_register_signature(gb);
                if same_signature(&signature, &MOONEYE_PASS_REGISTERS) {
                    let text = String::from_str("mooneye: pass");
                    Some(Some(text))
                } else if same_signature(&signature, &MOONEYE_FAIL_REGISTERS) {
                    let text = String::from_str("mooneye: fail");
                    Some(Some(text))
                } else {
                    None
                }
            },
            VisualStopCondition::SerialQuietSteps { quiet_steps, min_steps, min_serial_bytes } => if serial_output.len()
                >= *min_serial_bytes && executed_steps >= *min_steps && quiet_at_least(steps_since_serial_change, *quiet_steps) {
                Some(None)
            } else {
                None
            },
            VisualStopCondition::SerialQuietFrames { quiet_frames, min_frames, min_serial_bytes } => if serial_output.len()
                >= *min_serial_bytes && completed_frames >= *min_frames && quiet_at_least(
                frames_since_serial_change,
                *quiet_frames,
            ) {
                Some(None)
            } else {
                None
            },
            VisualStopCondition::ScreenQuietFrames { quiet_frames, min_frames } => {
                let stop = completed_frames >= *min_frames && quiet_at_least(frames_since_screen_change, *quiet_frames);
                if stop {
                    Some(None)
                } else {
                    None
                }
            },
            VisualStopCondition::Any { conditions } => {
                let mut i: usize = 0;
                while i < conditions.len()
                    invariant
                        *self matches VisualStopCondition::Any { conditions: cs } && cs == *conditions,
                        i <= conditions@.len(),
                        Self::first_stop(*self, inputs, 0) == Self::first_stop(*self, inputs, i as int),
                        inputs == (StopInputs {
                            register_b: gb.cpu.registers@[2],
                            signature: gb.cpu.registers@.subrange(2, 8),
                            opcode,
                            completed_frames,
                            executed_steps,
                            serial_output: serial_output.spec_bytes(),
                            steps_since_serial_change,
                            frames_since_serial_change,
                            frames_since_screen_change,
                        }),
                    decreases conditions@.len() - i,
                {
                    proof {
                        assert(decreases_to!(*self => conditions@[i as int]));
                    }
                    let r = conditions[i].evaluate(
                        gb,
                        opcode,
                        completed_frames,
                        executed_steps,
                        serial_output,
                        steps_since_serial_change,
                        frames_since_serial_change,
                        frames_since_screen_change,
                    );
                    if r.is_some() {
                        return r;
                    }
                    i = i + 1;
                }
                assert(Self::first_stop(*self, inputs, i as int) is None);
                assert(self.stop_spec(inputs) == Self::first_stop(*self, inputs, 0));
                None
            },
        }
    }
}

/// How many counted units have passed since a change, where there has been one.
pub open spec fn since(change: Option<usize>, now: usize) -> Option<usize> {
    match change {
        Some(at) => Some(if now >= at { (now - at) as usize } else { 0usize }),
        None => None,
    }
}

fn since_exec(change: Option<usize>, now: usize) -> (r: Option<usize>)
    ensures
        r == since(change, now),
{
    match change {
        Some(at) => Some(now.saturating_sub(at)),
        None => None,
    }
}

fn same_bytes(a: &[u8], b: &[u8]) -> (r: bool)
    ensures
        r == (a@ == b@),
{
    if a.len() != b.len() {
        return false;
    }
    let mut i: usize = 0;
    while i < a.len()
        invariant
            i <= a@.len(),
            a@.len() == b@.len(),
            forall|j: int| 0 <= j < i ==> a@[j] == b@[j],
        decreases a.len() - i,
    {
        if a[i] != b[i] {
            return false;
        }
        i = i + 1;
    }
    assert(a@ =~= b@);
    true
}

/// The bookkeeping of a visual capture run between instructions: the serial output so far,
/// the frames completed, and when the serial output and the screen last changed.
pub struct CaptureProgress {
    pub serial_output: String,
    pub completed_frames: usize,
    pub last_serial_change_step: Option<usize>,
    pub last_serial_change_frame: Option<usize>,
    pub previous_screen: Option<Vec<u8>>,
    pub last_screen_change_frame: Option<usize>,
}

/// The pixels of a screen held, where there is one.
pub open spec fn screen_view(screen: Option<Vec<u8>>) -> Option<Seq<u8>> {
    match screen {
        Some(p) => Some(p@),
        None => None,
    }
}

impl CaptureProgress {
    /// Nothing seen yet.
    pub fn new() -> (r: Self)
        ensures
            r.serial_output@ == Seq::<char>::empty(),
            r.completed_frames == 0,
            r.last_serial_change_step is None && r.last_serial_change_frame is None,
            r.previous_screen is None && r.last_screen_change_frame is None,
    {
        CaptureProgress {
            serial_output: String::new(),
            completed_frames: 0,
            last_serial_change_step: None,
            last_serial_change_frame: None,
            previous_screen: None,
            last_screen_change_frame: None,
        }
    }

    /// Appends what the serial port sent during step `executed_steps`; a non-empty chunk marks
    /// the serial output as changed at that step and at the current frame.
    pub fn record_serial(&mut self, chunk: &str, executed_steps: usize)
        ensures
            final(self).serial_output@ == old(self).serial_output@ + chunk@,
            chunk@.len() == 0 ==> *final(self) == (CaptureProgress { serial_output: final(self).serial_output, ..*old(self) }),
            chunk@.len() > 0 ==> *final(self) == (CaptureProgress {
                serial_output: final(self).serial_output,
                last_serial_change_step: Some(executed_steps),
                last_serial_change_frame: Some(old(self).completed_frames),
                ..*old(self)
            }),
    {
        if chunk.is_empty() {
            assert(chunk@ =~= Seq::<char>::empty());
            assert(self.serial_output@ + chunk@ =~= self.serial_output@);
            return;
        }
        self.serial_output.append(chunk);
        self.last_serial_change_step = Some(executed_steps);
        self.last_serial_change_frame = Some(self.completed_frames);
    }

    /// Counts a completed frame; a screen that differs from the last one kept becomes the one
    /// kept and marks the screen as changed at this frame.
    pub fn record_frame(&mut self, pixels: Vec<u8>)
        requires
            old(self).completed_frames < usize::MAX,
        ensures
            final(self).completed_frames == old(self).completed_frames + 1,
            screen_view(old(self).previous_screen) == Some(pixels@) ==> *final(self) == (CaptureProgress {
                completed_frames: final(self).completed_frames,
                ..*old(self)
            }),
            screen_view(old(self).previous_screen) != Some(pixels@) ==> *final(self) == (CaptureProgress {
                completed_frames: final(self).completed_frames,
                previous_screen: final(self).previous_screen,
                last_screen_change_frame: Some(final(self).completed_frames),
                ..*old(self)
            }) && screen_view(final(self).previous_screen) == Some(pixels@),
    {
        self.completed_frames = self.completed_frames + 1;
        let same = match &self.previous_screen {
            Some(previous) => same_bytes(previous.as_slice(), pixels.as_slice()),
            None => false,
        };
        if !same {
            self.last_screen_change_frame = Some(self.completed_frames);
            self.previous_screen = Some(pixels);
        }
    }

    /// Steps since the serial output changed, frames since it changed, frames since the
    /// screen changed (each `None` before the first change).
    pub fn quiet_counts(&self, executed_steps: usize) -> (r: (Option<usize>, Option<usize>, Option<usize>))
        ensures
            r == (
                since(self.last_serial_change_step, executed_steps),
                since(self.last_serial_change_frame, self.completed_frames),
                since(self.last_screen_change_frame, self.completed_frames),
            ),
    {
        (
            since_exec(self.last_serial_change_step, executed_steps),
            since_exec(self.last_serial_change_frame, self.completed_frames),
            since_exec(self.last_screen_change_frame, self.completed_frames),
        )
    }

    /// What a capture run does after its `executed_steps`-th instruction: takes the serial
    /// output, counts a completed frame (keeping its DMG screen, which it hands over), and
    /// judges the stop condition on the instruction now at PC.
    pub fn observe(&mut self, gb: &mut Gb, executed_steps: usize, stop: &VisualStopCondition) -> (r: Option<Option<String>>)
        requires
            old(gb).wf(),
            old(self).completed_frames < usize::MAX,
        ensures
            final(gb).wf(),
            final(gb).serial.serial_data@.len() == 0,
            !final(gb).ppu.frame_ready,
            final(gb).cpu.current_instruction == old(gb).read_spec(old(gb).cpu.pc),
            final(gb).ppu == (crate::ppu::Ppu { frame_ready: false, ..old(gb).ppu }),
            final(self).serial_output@ == old(self).serial_output@ + crate::serial::escape_bytes(old(gb).serial.serial_data@),
            old(gb).serial.serial_data@.len() > 0 ==> final(self).last_serial_change_step == Some(executed_steps),
            final(self).completed_frames == old(self).completed_frames + (if old(gb).ppu.frame_ready { 1int } else { 0 }),
            verdict_view(r) == stop.stop_spec(
                StopInputs {
                    register_b: final(gb).cpu.registers@[2],
                    signature: final(gb).cpu.registers@.subrange(2, 8),
                    opcode: old(gb).read_spec(old(gb).cpu.pc),
                    completed_frames: final(self).completed_frames,
                    executed_steps,
                    serial_output: vstd::utf8::encode_utf8(final(self).serial_output@),
                    steps_since_serial_change: since(final(self).last_serial_change_step, executed_steps),
                    frames_since_serial_change: since(final(self).last_serial_change_frame, final(self).completed_frames),
                    frames_since_screen_change: since(final(self).last_screen_change_frame, final(self).completed_frames),
                },
            ),
    {
        match gb.take_serial_output() {
            Some(chunk) => self.record_serial(chunk.as_str(), executed_steps),
            None => {},
        }
        if gb.frame_ready() {
            let screen = gb.ppu.get_screen();
            let captured = capture_dmg_screen(screen);
            match captured {
                CapturedScreen::Dmg(pixels) => self.record_frame(pixels),
                CapturedScreen::Cgb(_) => {},
            }
        }
        let snapshot = gb.debug_snapshot();
        let (steps_quiet, frames_quiet, screen_quiet) = self.quiet_counts(executed_steps);
        stop.evaluate(
            gb,
            snapshot.opcode,
            self.completed_frames,
            executed_steps,
            self.serial_output.as_str(),
            steps_quiet,
            frames_quiet,
            screen_quiet,
        )
    }
}

} // verus!
