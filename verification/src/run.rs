//! A batch: one thumbnail for every picture of a directory.
//!
//! Every file of a batch is a job of its own. A job that fails is reported
//! and has no effect on the others.

use crate::scan::{
    image_kind,
    image_names,
    is_image_name,
    lemma_image_names_start,
    lemma_image_names_step,
};
use crate::target::ThumbnailSpec;
use crate::thumb::{
    create_thumb,
    lemma_outcome_depends_on_the_file_alone,
    thumb_settled,
    ThumbError,
    Thumbnail,
};
use vstd::prelude::*;

verus! {

/// A file of the source directory, held in memory.
#[derive(Debug)]
pub struct SourceFile {
    /// The name of the file inside its directory.
    pub name: String,
    /// The bytes of the file.
    pub data: Vec<u8>,
}

/// The job of one picture, after it has run.
#[derive(Debug)]
pub struct Job {
    /// The name of the source file, which the thumbnail is given too.
    pub file_name: String,
    /// The thumbnail, or why there is none.
    pub outcome: Result<Thumbnail, ThumbError>,
}

/// A job that failed.
#[derive(Debug)]
pub struct JobFailure {
    /// The name of the source file.
    pub file_name: String,
    /// Why there is no thumbnail of it.
    pub error: ThumbError,
}

/// What became of the jobs of a batch, in the order in which they were
/// recorded.
#[derive(Debug)]
pub struct BatchReport {
    /// The files of which a thumbnail was made.
    pub completed: Vec<String>,
    /// The files of which none was made.
    pub failures: Vec<JobFailure>,
}

/// The names of the given files.
pub open spec fn file_names(files: Seq<SourceFile>) -> Seq<Seq<char>> {
    files.map_values(|file: SourceFile| file.name@)
}

/// The names of the files whose jobs these are.
pub open spec fn job_names(jobs: Seq<Job>) -> Seq<Seq<char>> {
    jobs.map_values(|job: Job| job.file_name@)
}

/// The files whose names are names of pictures, in their order.
pub open spec fn picture_files(files: Seq<SourceFile>) -> Seq<SourceFile> {
    files.filter(|file: SourceFile| is_image_name(file.name@))
}

/// The job is the job of the given file: it bears the file's name, and its
/// outcome is the one owed for the file's bytes and name and the target.
pub open spec fn job_settled(job: Job, file: SourceFile, target_width: u32, target_height: u32)
    -> bool {
    &&& job.file_name@ == file.name@
    &&& thumb_settled(file.data@, file.name@, target_width, target_height, job.outcome)
}

/// No file has been looked at: no picture has been found.
proof fn lemma_picture_files_start(files: Seq<SourceFile>)
    ensures
        picture_files(files.take(0)) == Seq::<SourceFile>::empty(),
{
    reveal(Seq::filter);
    assert(files.take(0) =~= Seq::<SourceFile>::empty());
}

/// One more file is looked at: the pictures among the first `i + 1` files
/// are those among the first `i`, followed by the file at `i` if it is a
/// picture.
proof fn lemma_picture_files_step(files: Seq<SourceFile>, i: int)
    requires
        0 <= i < files.len(),
    ensures
        picture_files(files.take(i + 1)) == if is_image_name(files[i].name@) {
            picture_files(files.take(i)).push(files[i])
        } else {
            picture_files(files.take(i))
        },
{
    reveal(Seq::filter);
    assert(files.take(i + 1).drop_last() =~= files.take(i));
    assert(files.take(i + 1).last() == files[i]);
}

/// Runs a batch on files held in memory, one after the other.
///
/// There is one job for each file whose name is one of a picture, in the
/// order of the files, and none for any other file. Every job has run when the
/// function returns. The outcome of each job is the one owed for its own
/// file and the target, whatever the other files are and whatever became of
/// their jobs: a failure is recorded in its job and stops nothing.
pub fn run(spec: &ThumbnailSpec, files: &Vec<SourceFile>) -> (jobs: Vec<Job>)
    ensures
        jobs.len() == picture_files(files@).len(),
        forall|i: int|
            0 <= i < jobs.len() ==> job_settled(
                #[trigger] jobs[i],
                picture_files(files@)[i],
                spec.target_width(),
                spec.target_height(),
            ),
        job_names(jobs@) == image_names(file_names(files@)),
{
    let ghost names = file_names(files@);
    let mut jobs: Vec<Job> = Vec::new();
    let mut i: usize = 0;
    proof {
        lemma_image_names_start(names);
        lemma_picture_files_start(files@);
        assert(job_names(jobs@) =~= Seq::<Seq<char>>::empty());
    }
    while i < files.len()
        invariant
            i <= files.len(),
            names == file_names(files@),
            job_names(jobs@) == image_names(names.take(i as int)),
            jobs.len() == picture_files(files@.take(i as int)).len(),
            forall|k: int|
                0 <= k < jobs.len() ==> job_settled(
                    #[trigger] jobs[k],
                    picture_files(files@.take(i as int))[k],
                    spec.target_width(),
                    spec.target_height(),
                ),
        decreases files.len() - i,
    {
        let ghost before = jobs@;
        proof {
            lemma_image_names_step(names, i as int);
            lemma_picture_files_step(files@, i as int);
        }
        let file = &files[i];
        if image_kind(file.name.as_str()).is_some() {
            let outcome = create_thumb(file.data.as_slice(), file.name.as_str(), spec);
            jobs.push(Job { file_name: file.name.clone(), outcome });
            assert(job_names(jobs@) =~= job_names(before).push(file.name@));
        }
        i = i + 1;
    }
    proof {
        assert(names.take(files.len() as int) =~= names);
        assert(files@.take(files.len() as int) =~= files@);
    }
    jobs
}

/// The job of a file does not depend on the other files of its batch: two
/// jobs of files with the same name and the same bytes, in whatever batches
/// of the same target, bear the same name and end alike, as
/// `lemma_outcome_depends_on_the_file_alone` says of their outcomes.
pub proof fn lemma_job_ignores_its_siblings(
    first: Job,
    file: SourceFile,
    second: Job,
    other: SourceFile,
    target_width: u32,
    target_height: u32,
)
    requires
        job_settled(first, file, target_width, target_height),
        job_settled(second, other, target_width, target_height),
        file.name@ == other.name@,
        file.data@ == other.data@,
    ensures
        first.file_name@ == second.file_name@,
        thumb_settled(file.data@, file.name@, target_width, target_height, first.outcome),
        thumb_settled(file.data@, file.name@, target_width, target_height, second.outcome),
        first.outcome matches Err(ThumbError::Decode(_)) <==> second.outcome matches Err(
            ThumbError::Decode(_),
        ),
        first.outcome matches Err(ThumbError::TooLarge) <==> second.outcome matches Err(
            ThumbError::TooLarge,
        ),
        (first.outcome is Ok || first.outcome matches Err(ThumbError::Encode(_))) <==> (
        second.outcome is Ok || second.outcome matches Err(ThumbError::Encode(_))),
        first.outcome matches Ok(one) ==> (second.outcome matches Ok(two) ==> one.kind == two.kind
            && one.width == two.width && one.height == two.height),
{
    lemma_outcome_depends_on_the_file_alone(
        file.data@,
        file.name@,
        target_width,
        target_height,
        first.outcome,
        second.outcome,
    );
}

impl BatchReport {
    /// The report of a batch none of whose jobs has been recorded.
    pub fn new() -> (report: BatchReport)
        ensures
            report.completed@.len() == 0,
            report.failures@.len() == 0,
    {
        BatchReport { completed: Vec::new(), failures: Vec::new() }
    }

    /// The number of jobs recorded.
    pub open spec fn recorded(self) -> nat {
        self.completed@.len() + self.failures@.len()
    }

    /// Records the outcome of one job.
    ///
    /// A success adds the file to the completed ones and a failure adds it,
    /// with its error, to the failures. Whatever was recorded before is kept
    /// as it was.
    pub fn record(&mut self, file_name: String, outcome: Result<(), ThumbError>)
        ensures
            match outcome {
                Ok(_) => {
                    &&& final(self).completed@ == old(self).completed@.push(file_name)
                    &&& final(self).failures@ == old(self).failures@
                },
                Err(error) => {
                    &&& final(self).completed@ == old(self).completed@
                    &&& final(self).failures@ == old(self).failures@.push(
                        JobFailure { file_name, error },
                    )
                },
            },
            final(self).recorded() == old(self).recorded() + 1,
    {
        match outcome {
            Ok(_) => {
                self.completed.push(file_name);
            },
            Err(error) => {
                self.failures.push(JobFailure { file_name, error });
            },
        }
    }

    /// Whether every recorded job made its thumbnail.
    pub fn is_clean(&self) -> (clean: bool)
        ensures
            clean == (self.failures@.len() == 0),
    {
        self.failures.len() == 0
    }
}

} // verus!
