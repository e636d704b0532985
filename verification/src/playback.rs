//! Virtual cameras: recordings played in a loop, one for the left side and
//! one for the right.
//!
//! Finding the files and decoding their frames is left to the surroundings.
//! They hand in what they found, ask which frame a side shows next, decode
//! it, and hand in the bytes.

use vstd::prelude::*;
use vstd::string::*;
use crate::frame::{frame_len, Frame, FrameView};
use crate::text::{
    append_decimal, decimal, lemma_lex_asymmetric, lemma_lex_total, lemma_lex_transitive, lex_lt,
    name_key, name_lt,
};

verus! {

/// Why playback has no frame to give.
#[derive(Clone, Copy, PartialEq, Eq, Structural, Debug)]
pub enum PlaybackError {
    /// The directory holds no recording.
    NoRecordingsFound,
    /// No file is loaded on that side.
    NotLoaded,
    /// The file could not be read as frames of its stated size.
    DecodeError,
}

/// A recording found on disk: its file name and what its header says.
#[derive(Debug)]
pub struct RecordingFile {
    pub name: String,
    pub width: u32,
    pub height: u32,
    pub frame_count: u64,
    pub duration_seconds: u64,
}

/// A recording file as plain values.
pub struct RecordingFileView {
    pub name: Seq<char>,
    pub width: nat,
    pub height: nat,
    pub frame_count: nat,
    pub duration_seconds: nat,
}

impl View for RecordingFile {
    type V = RecordingFileView;

    open spec fn view(&self) -> RecordingFileView {
        RecordingFileView {
            name: self.name@,
            width: self.width as nat,
            height: self.height as nat,
            frame_count: self.frame_count as nat,
            duration_seconds: self.duration_seconds as nat,
        }
    }
}

impl Clone for RecordingFile {
    fn clone(&self) -> (copy: RecordingFile)
        ensures
            copy@ == self@,
    {
        RecordingFile {
            name: self.name.clone(),
            width: self.width,
            height: self.height,
            frame_count: self.frame_count,
            duration_seconds: self.duration_seconds,
        }
    }
}

/// The files of a directory listing as plain values.
pub open spec fn files_view(files: Seq<RecordingFile>) -> Seq<RecordingFileView> {
    Seq::new(files.len(), |i: int| files[i]@)
}

/// A file played in a loop, as plain values.
pub struct LoopingFileView {
    pub file: RecordingFileView,
    /// Index of the frame that is shown next.
    pub cursor: nat,
}

impl LoopingFileView {
    /// The cursor points at a frame of the file.
    pub open spec fn wf(self) -> bool {
        self.cursor < self.file.frame_count || self.cursor == 0
    }

    /// The file with the cursor on its first frame.
    pub open spec fn fresh(file: RecordingFileView) -> LoopingFileView {
        LoopingFileView { file, cursor: 0 }
    }

    /// The file with the cursor on the following frame, or back on the first
    /// one after the last.
    pub open spec fn advance(self) -> LoopingFileView {
        LoopingFileView {
            cursor: if self.cursor + 1 >= self.file.frame_count {
                0
            } else {
                self.cursor + 1
            },
            ..self
        }
    }

    /// The file after `pulls` frames were shown.
    pub open spec fn after(self, pulls: nat) -> LoopingFileView
        decreases pulls,
    {
        if pulls == 0 {
            self
        } else {
            self.after((pulls - 1) as nat).advance()
        }
    }

    /// What was decoded is a whole frame of this file.
    pub open spec fn readable(self, decoded: Option<Seq<u8>>) -> bool {
        &&& self.file.frame_count > 0
        &&& decoded matches Some(pixels) && pixels.len() == frame_len(
            self.file.width,
            self.file.height,
        )
    }

    /// The frame made of the bytes decoded at the cursor. Its sequence number
    /// is its index in the file.
    pub open spec fn frame(self, pixels: Seq<u8>) -> FrameView {
        FrameView {
            pixels,
            width: self.file.width,
            height: self.file.height,
            sequence: self.cursor,
        }
    }

    /// The file after a pull that decoded `decoded`: moved on by one frame
    /// if that was a whole frame, as it was if not.
    pub open spec fn pulled(self, decoded: Option<Seq<u8>>) -> LoopingFileView {
        if self.readable(decoded) {
            self.advance()
        } else {
            self
        }
    }

    /// What a pull that decoded `decoded` gives.
    pub open spec fn pull_result(self, decoded: Option<Seq<u8>>) -> Result<
        FrameView,
        PlaybackError,
    > {
        if self.readable(decoded) {
            Ok(self.frame(decoded->0))
        } else {
            Err(PlaybackError::DecodeError)
        }
    }

    /// One line of status: the name and the duration of the file.
    pub open spec fn status_line(self) -> Seq<char> {
        self.file.name + ": loaded, "@ + decimal(self.file.duration_seconds) + "s"@
    }
}

/// The cursor of a file in a loop is a frame count modulo the length of the
/// file: after `pulls` frames it stands where `pulls` steps from its start,
/// wrapping at the end, lead.
pub proof fn lemma_cursor_wraps(f: LoopingFileView, pulls: nat)
    requires
        f.file.frame_count > 0,
        f.cursor < f.file.frame_count,
    ensures
        f.after(pulls).cursor == (f.cursor + pulls) % f.file.frame_count,
        f.after(pulls).file == f.file,
        f.after(pulls).wf(),
    decreases pulls,
{
    let n = f.file.frame_count as int;
    if pulls == 0 {
        assert(f.cursor as int % n == f.cursor) by (nonlinear_arith)
            requires
                0 <= f.cursor < n,
        ;
    } else {
        lemma_cursor_wraps(f, (pulls - 1) as nat);
        let before = (f.cursor + pulls - 1) as int;
        assert((before + 1) % n == if before % n + 1 >= n {
            0
        } else {
            before % n + 1
        }) by (nonlinear_arith)
            requires
                n > 0,
                before >= 0,
        ;
    }
}

/// A file of ten frames pulled fifteen times shows its frames 0 to 9 and
/// then 0 to 4: the `k`-th pull from the start shows frame `k` modulo the
/// length, whatever the length.
pub proof fn lemma_loop_indices(file: RecordingFileView, k: nat)
    requires
        file.frame_count > 0,
    ensures
        LoopingFileView::fresh(file).after(k).cursor == k % file.frame_count,
        k < file.frame_count ==> LoopingFileView::fresh(file).after(k).cursor == k,
        file.frame_count <= k < 2 * file.frame_count ==> LoopingFileView::fresh(file).after(
            k,
        ).cursor == k - file.frame_count,
{
    lemma_cursor_wraps(LoopingFileView::fresh(file), k);
    let n = file.frame_count as int;
    if k < n {
        assert(k as int % n == k) by (nonlinear_arith)
            requires
                0 <= k < n,
        ;
    } else if k < 2 * n {
        assert(k as int % n == k - n) by (nonlinear_arith)
            requires
                n <= k < 2 * n,
        ;
    }
}

/// A file played in a loop: a virtual camera.
pub struct LoopingFile {
    file: RecordingFile,
    cursor: u64,
}

impl View for LoopingFile {
    type V = LoopingFileView;

    closed spec fn view(&self) -> LoopingFileView {
        LoopingFileView { file: self.file@, cursor: self.cursor as nat }
    }
}

/// The model of a looping file that may be absent.
pub open spec fn looping_view(file: Option<LoopingFile>) -> Option<LoopingFileView> {
    match file {
        Some(f) => Some(f@),
        None => None,
    }
}

/// The model of the outcome of a pull.
pub open spec fn pull_view(result: Result<Frame, PlaybackError>) -> Result<
    FrameView,
    PlaybackError,
> {
    match result {
        Ok(frame) => Ok(frame@),
        Err(error) => Err(error),
    }
}

impl LoopingFile {
    #[verifier::type_invariant]
    spec fn well_formed(self) -> bool {
        self@.wf()
    }

    /// The file with the cursor on its first frame.
    pub fn open(file: RecordingFile) -> (looping: LoopingFile)
        ensures
            looping@ == LoopingFileView::fresh(file@),
            looping@.wf(),
    {
        LoopingFile { file, cursor: 0 }
    }

    /// What is known of the file.
    pub fn file(&self) -> (file: &RecordingFile)
        ensures
            file@ == self@.file,
    {
        &self.file
    }

    /// Index of the frame that is shown next: a frame of the file, or 0 for
    /// a file without frames.
    pub fn cursor(&self) -> (index: u64)
        ensures
            index == self@.cursor,
            self@.wf(),
    {
        proof {
            use_type_invariant(self);
        }
        self.cursor
    }

    /// Takes what was decoded at the cursor. A whole frame is handed out and
    /// the cursor moves on, back to the start after the last frame. Anything
    /// else, or a file without frames, is a decode error and moves nothing.
    pub fn pull_frame(&mut self, decoded: Option<Vec<u8>>) -> (result: Result<
        Frame,
        PlaybackError,
    >)
        ensures
            final(self)@ == old(self)@.pulled(bytes_view(decoded)),
            pull_view(result) == old(self)@.pull_result(bytes_view(decoded)),
            result matches Ok(frame) ==> frame@.wf(),
            old(self)@.wf(),
            final(self)@.wf(),
    {
        proof {
            use_type_invariant(&*self);
        }
        if self.file.frame_count == 0 {
            return Err(PlaybackError::DecodeError);
        }
        match decoded {
            None => Err(PlaybackError::DecodeError),
            Some(data) => {
                match Frame::new(data, self.file.width, self.file.height, self.cursor) {
                    None => Err(PlaybackError::DecodeError),
                    Some(frame) => {
                        if self.cursor >= self.file.frame_count - 1 {
                            self.cursor = 0;
                        } else {
                            self.cursor = self.cursor + 1;
                        }
                        Ok(frame)
                    },
                }
            },
        }
    }

    /// Appends the status line of this file to `out`.
    pub fn append_status(&self, out: &mut String)
        ensures
            final(out)@ == old(out)@ + self@.status_line(),
    {
        out.append(self.file.name.as_str());
        out.append(": loaded, ");
        append_decimal(out, self.file.duration_seconds);
        out.append("s");
    }
}

/// The bytes of a buffer that may be absent.
pub open spec fn bytes_view(data: Option<Vec<u8>>) -> Option<Seq<u8>> {
    match data {
        Some(d) => Some(d@),
        None => None,
    }
}

/// File `i` is the one that sorts first among all files but file `skip`:
/// no other sorts before it, and those listed ahead of it sort after it.
/// Pass a `skip` that is no index to leave none out.
pub open spec fn is_first_least(files: Seq<RecordingFileView>, skip: int, i: int) -> bool {
    &&& 0 <= i < files.len()
    &&& i != skip
    &&& forall|j: int|
        0 <= j < files.len() && j != skip ==> !lex_lt(
            name_key((#[trigger] files[j]).name),
            name_key(files[i].name),
        )
    &&& forall|j: int|
        0 <= j < i && j != skip ==> lex_lt(
            name_key(files[i].name),
            name_key((#[trigger] files[j]).name),
        )
}

/// The index of the file that sorts first among all but file `skip`.
pub open spec fn first_least(files: Seq<RecordingFileView>, skip: int) -> int {
    choose|i: int| is_first_least(files, skip, i)
}

/// Only one file sorts first.
pub proof fn lemma_first_least_unique(files: Seq<RecordingFileView>, skip: int, i: int, j: int)
    requires
        is_first_least(files, skip, i),
        is_first_least(files, skip, j),
    ensures
        i == j,
        first_least(files, skip) == i,
{
    let k = first_least(files, skip);
    if i < j {
        assert(lex_lt(name_key(files[j].name), name_key(files[i].name)));
    } else if j < i {
        assert(lex_lt(name_key(files[i].name), name_key(files[j].name)));
    }
    if k < i {
        assert(lex_lt(name_key(files[i].name), name_key(files[k].name)));
    } else if i < k {
        assert(lex_lt(name_key(files[k].name), name_key(files[i].name)));
    }
}

/// Two virtual cameras as plain values.
pub struct StereoView {
    pub left: Option<LoopingFileView>,
    pub right: Option<LoopingFileView>,
}

/// The status line of a side.
pub open spec fn side_status(side: Option<LoopingFileView>) -> Seq<char> {
    match side {
        Some(file) => file.status_line(),
        None => "Not loaded"@,
    }
}

/// The file after a pull on a side, if the side has one.
pub open spec fn side_pulled(side: Option<LoopingFileView>, decoded: Option<Seq<u8>>) -> Option<
    LoopingFileView,
> {
    match side {
        Some(file) => Some(file.pulled(decoded)),
        None => None,
    }
}

/// What a pull on a side gives.
pub open spec fn side_pull_result(side: Option<LoopingFileView>, decoded: Option<Seq<u8>>)
    -> Result<FrameView, PlaybackError> {
    match side {
        Some(file) => file.pull_result(decoded),
        None => Err(PlaybackError::NotLoaded),
    }
}

impl StereoView {
    /// The cursor of each side points at a frame of its file.
    pub open spec fn wf(self) -> bool {
        &&& self.left matches Some(file) ==> file.wf()
        &&& self.right matches Some(file) ==> file.wf()
    }

    /// The cameras that a directory with these recordings gives: the file
    /// that sorts first on the left, the one that sorts second on the right,
    /// each at its first frame. One file alone leaves the right side empty;
    /// no file is an error.
    pub open spec fn load(files: Seq<RecordingFileView>) -> Result<StereoView, PlaybackError> {
        if files.len() == 0 {
            Err(PlaybackError::NoRecordingsFound)
        } else {
            let l = first_least(files, -1);
            Ok(
                StereoView {
                    left: Some(LoopingFileView::fresh(files[l])),
                    right: if files.len() == 1 {
                        None
                    } else {
                        Some(LoopingFileView::fresh(files[first_least(files, l)]))
                    },
                },
            )
        }
    }

    /// The two status lines, left then right, with a line feed between them.
    pub open spec fn status(self) -> Seq<char> {
        side_status(self.left) + seq!['\n'] + side_status(self.right)
    }
}

/// Finds the file that sorts first among all but the one at `skip`.
fn find_first_least(files: &Vec<RecordingFile>, skip: Option<usize>) -> (found: Option<usize>)
    ensures
        found matches Some(i) ==> is_first_least(
            files_view(files@),
            match skip {
                Some(s) => s as int,
                None => -1,
            },
            i as int,
        ),
        found is None ==> files.len() == 0 || (files.len() == 1 && skip == Some(0usize)),
{
    let ghost views = files_view(files@);
    let ghost out: int = match skip {
        Some(s) => s as int,
        None => -1,
    };
    let mut best: Option<usize> = None;
    let mut i: usize = 0;
    while i < files.len()
        invariant
            i <= files.len(),
            views == files_view(files@),
            out == match skip {
                Some(s) => s as int,
                None => -1,
            },
            best is None ==> i == 0 || (i == 1 && skip == Some(0usize)),
            best matches Some(b) ==> {
                &&& b < i
                &&& b != out
                &&& forall|j: int|
                    0 <= j < i && j != out ==> !lex_lt(
                        name_key((#[trigger] views[j]).name),
                        name_key(views[b as int].name),
                    )
                &&& forall|j: int|
                    0 <= j < b && j != out ==> lex_lt(
                        name_key(views[b as int].name),
                        name_key((#[trigger] views[j]).name),
                    )
            },
        decreases files.len() - i,
    {
        let skipped = match skip {
            Some(s) => s == i,
            None => false,
        };
        if !skipped {
            match best {
                None => {
                    proof {
                        lemma_lex_asymmetric(
                            name_key(views[i as int].name),
                            name_key(views[i as int].name),
                        );
                    }
                    best = Some(i);
                },
                Some(b) => {
                    if name_lt(files[i].name.as_str(), files[b].name.as_str()) {
                        proof {
                            let ki = name_key(views[i as int].name);
                            let kb = name_key(views[b as int].name);
                            lemma_lex_asymmetric(ki, ki);
                            assert forall|j: int| 0 <= j < i && j != out implies lex_lt(
                                ki,
                                name_key((#[trigger] views[j]).name),
                            ) by {
                                let kj = name_key(views[j].name);
                                lemma_lex_total(ki, kj);
                                if lex_lt(kj, ki) {
                                    lemma_lex_transitive(kj, ki, kb);
                                }
                            }
                            assert forall|j: int| 0 <= j < i && j != out implies !lex_lt(
                                name_key((#[trigger] views[j]).name),
                                ki,
                            ) by {
                                lemma_lex_asymmetric(ki, name_key(views[j].name));
                            }
                        }
                        best = Some(i);
                    }
                },
            }
        }
        i = i + 1;
    }
    best
}

/// Appends the status line of a side to `out`.
fn append_side_status(side: &Option<LoopingFile>, out: &mut String)
    ensures
        final(out)@ == old(out)@ + side_status(looping_view(*side)),
{
    match side {
        Some(looping) => looping.append_status(out),
        None => out.append("Not loaded"),
    }
}

/// The left and the right virtual camera.
pub struct StereoPlaybackSystem {
    left: Option<LoopingFile>,
    right: Option<LoopingFile>,
}

impl View for StereoPlaybackSystem {
    type V = StereoView;

    closed spec fn view(&self) -> StereoView {
        StereoView { left: looping_view(self.left), right: looping_view(self.right) }
    }
}

impl StereoPlaybackSystem {
    #[verifier::type_invariant]
    spec fn well_formed(self) -> bool {
        self@.wf()
    }

    /// Sets up the virtual cameras for the recordings found in a directory,
    /// in whatever order they were listed.
    pub fn load_from_directory(files: Vec<RecordingFile>) -> (result: Result<
        StereoPlaybackSystem,
        PlaybackError,
    >)
        ensures
            match StereoView::load(files_view(files@)) {
                Ok(loaded) => result matches Ok(system) && system@ == loaded,
                Err(error) => result matches Err(e) && e == error,
            },
            result is Err <==> files@.len() == 0,
            result matches Ok(system) ==> system@.wf(),
            files@.len() == 1 ==> (result matches Ok(system) && system@.left == Some(
                LoopingFileView::fresh(files@[0]@),
            ) && system@.right is None),
    {
        let ghost views = files_view(files@);
        match find_first_least(&files, None) {
            None => Err(PlaybackError::NoRecordingsFound),
            Some(l) => {
                proof {
                    lemma_first_least_unique(views, -1, l as int, l as int);
                }
                let left = LoopingFile::open(files[l].clone());
                let right = match find_first_least(&files, Some(l)) {
                    None => None,
                    Some(r) => {
                        proof {
                            lemma_first_least_unique(views, l as int, r as int, r as int);
                        }
                        Some(LoopingFile::open(files[r].clone()))
                    },
                };
                Ok(StereoPlaybackSystem { left: Some(left), right })
            },
        }
    }

    /// The file on the left side, if one is loaded.
    pub fn left_file(&self) -> (file: Option<&RecordingFile>)
        ensures
            file is Some <==> self@.left is Some,
            file matches Some(f) ==> f@ == self@.left->0.file,
    {
        match &self.left {
            Some(looping) => Some(looping.file()),
            None => None,
        }
    }

    /// The file on the right side, if one is loaded.
    pub fn right_file(&self) -> (file: Option<&RecordingFile>)
        ensures
            file is Some <==> self@.right is Some,
            file matches Some(f) ==> f@ == self@.right->0.file,
    {
        match &self.right {
            Some(looping) => Some(looping.file()),
            None => None,
        }
    }

    /// Index of the frame the left side shows next.
    pub fn left_cursor(&self) -> (index: Result<u64, PlaybackError>)
        ensures
            match self@.left {
                Some(file) => index == Ok::<u64, PlaybackError>(file.cursor as u64),
                None => index == Err::<u64, PlaybackError>(PlaybackError::NotLoaded),
            },
            self@.wf(),
    {
        proof {
            use_type_invariant(self);
        }
        match &self.left {
            Some(looping) => Ok(looping.cursor()),
            None => Err(PlaybackError::NotLoaded),
        }
    }

    /// Index of the frame the right side shows next.
    pub fn right_cursor(&self) -> (index: Result<u64, PlaybackError>)
        ensures
            match self@.right {
                Some(file) => index == Ok::<u64, PlaybackError>(file.cursor as u64),
                None => index == Err::<u64, PlaybackError>(PlaybackError::NotLoaded),
            },
            self@.wf(),
    {
        proof {
            use_type_invariant(self);
        }
        match &self.right {
            Some(looping) => Ok(looping.cursor()),
            None => Err(PlaybackError::NotLoaded),
        }
    }

    /// The next frame of the left side, made of what was decoded at its
    /// cursor.
    pub fn get_left_frame(&mut self, decoded: Option<Vec<u8>>) -> (result: Result<
        Frame,
        PlaybackError,
    >)
        ensures
            final(self)@.left == side_pulled(old(self)@.left, bytes_view(decoded)),
            final(self)@.right == old(self)@.right,
            pull_view(result) == side_pull_result(old(self)@.left, bytes_view(decoded)),
            result matches Ok(frame) ==> frame@.wf(),
            old(self)@.wf(),
            final(self)@.wf(),
    {
        proof {
            use_type_invariant(&*self);
        }
        let mut side: Option<LoopingFile> = None;
        std::mem::swap(&mut side, &mut self.left);
        let result = match &mut side {
            Some(looping) => looping.pull_frame(decoded),
            None => Err(PlaybackError::NotLoaded),
        };
        self.left = side;
        result
    }

    /// The next frame of the right side, made of what was decoded at its
    /// cursor.
    pub fn get_right_frame(&mut self, decoded: Option<Vec<u8>>) -> (result: Result<
        Frame,
        PlaybackError,
    >)
        ensures
            final(self)@.right == side_pulled(old(self)@.right, bytes_view(decoded)),
            final(self)@.left == old(self)@.left,
            pull_view(result) == side_pull_result(old(self)@.right, bytes_view(decoded)),
            result matches Ok(frame) ==> frame@.wf(),
            old(self)@.wf(),
            final(self)@.wf(),
    {
        proof {
            use_type_invariant(&*self);
        }
        let mut side: Option<LoopingFile> = None;
        std::mem::swap(&mut side, &mut self.right);
        let result = match &mut side {
            Some(looping) => looping.pull_frame(decoded),
            None => Err(PlaybackError::NotLoaded),
        };
        self.right = side;
        result
    }

    /// The status line of the left side: the name and duration of the file
    /// loaded there, or "Not loaded".
    pub fn left_status(&self) -> (line: String)
        ensures
            line@ == side_status(self@.left),
    {
        let mut line = String::new();
        append_side_status(&self.left, &mut line);
        line
    }

    /// The status line of the right side: the name and duration of the file
    /// loaded there, or "Not loaded".
    pub fn right_status(&self) -> (line: String)
        ensures
            line@ == side_status(self@.right),
    {
        let mut line = String::new();
        append_side_status(&self.right, &mut line);
        line
    }

    /// Two lines, the left side then the right: the name and duration of the
    /// file loaded there, or "Not loaded".
    pub fn get_status(&self) -> (status: String)
        ensures
            status@ == self@.status(),
    {
        let mut status = String::new();
        append_side_status(&self.left, &mut status);
        status.append("\n");
        proof {
            reveal_strlit("\n");
        }
        append_side_status(&self.right, &mut status);
        status
    }
}

} // verus!
