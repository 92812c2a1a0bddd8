//! Configuration of a one-shot scan over a columnar file in object storage,
//! and the checks made on a file before its rows are read.
use vstd::prelude::*;

verus! {

/// The file formats a scan can read.
#[derive(Clone, Copy, Debug, PartialEq, Eq, Structural)]
pub enum FileFormat {
    Parquet,
}

/// The names of the columns a scan produces, in order.
#[derive(Clone, Debug)]
pub struct Schema {
    pub field_names: Vec<String>,
}

/// The text of each name in `names`.
pub open spec fn name_texts(names: Seq<String>) -> Seq<Seq<char>> {
    names.map_values(|s: String| s@)
}

/// A scan of one file in object storage. Only Parquet files are read.
pub struct S3FileScanExecutor {
    file_format: FileFormat,
    location: String,
    s3_region: String,
    s3_access_key: String,
    s3_secret_key: String,
    batch_size: usize,
    schema: Schema,
    identity: String,
}

impl S3FileScanExecutor {
    /// The schema this scan produces.
    pub closed spec fn schema_spec(&self) -> Schema {
        self.schema
    }

    /// The name of this scan in plans and logs.
    pub closed spec fn identity_spec(&self) -> String {
        self.identity
    }

    /// The format of the scanned file.
    pub closed spec fn file_format_spec(&self) -> FileFormat {
        self.file_format
    }

    /// The number of rows per chunk read.
    pub closed spec fn batch_size_spec(&self) -> usize {
        self.batch_size
    }

    /// A scan of the file at `location`, in `s3_region`, read with the given
    /// credentials in chunks of `batch_size` rows.
    pub fn new(
        file_format: FileFormat,
        location: String,
        s3_region: String,
        s3_access_key: String,
        s3_secret_key: String,
        batch_size: usize,
        schema: Schema,
        identity: String,
    ) -> (e: Self)
        ensures
            e.file_format_spec() == file_format,
            e.batch_size_spec() == batch_size,
            e.schema_spec() == schema,
            e.identity_spec() == identity,
            e.location_spec() == location,
            e.s3_region_spec() == s3_region,
            e.s3_access_key_spec() == s3_access_key,
            e.s3_secret_key_spec() == s3_secret_key,
    {
        S3FileScanExecutor {
            file_format,
            location,
            s3_region,
            s3_access_key,
            s3_secret_key,
            batch_size,
            schema,
            identity,
        }
    }

    /// Where the scanned file lies.
    pub closed spec fn location_spec(&self) -> String {
        self.location
    }

    /// The region of the object store.
    pub closed spec fn s3_region_spec(&self) -> String {
        self.s3_region
    }

    /// The access key for the object store.
    pub closed spec fn s3_access_key_spec(&self) -> String {
        self.s3_access_key
    }

    /// The secret key for the object store.
    pub closed spec fn s3_secret_key_spec(&self) -> String {
        self.s3_secret_key
    }

    /// The schema this scan produces.
    pub fn schema(&self) -> (r: &Schema)
        ensures
            *r == self.schema_spec(),
    {
        &self.schema
    }

    /// The name of this scan in plans and logs.
    pub fn identity(&self) -> (r: &String)
        ensures
            *r == self.identity_spec(),
    {
        &self.identity
    }

    /// The format of the scanned file.
    pub fn file_format(&self) -> (r: FileFormat)
        ensures
            r == self.file_format_spec(),
    {
        self.file_format
    }

    /// The number of rows per chunk read.
    pub fn batch_size(&self) -> (r: usize)
        ensures
            r == self.batch_size_spec(),
    {
        self.batch_size
    }

    /// Where the scanned file lies.
    pub fn location(&self) -> (r: &String)
        ensures
            *r == self.location_spec(),
    {
        &self.location
    }

    /// The region of the object store.
    pub fn s3_region(&self) -> (r: &String)
        ensures
            *r == self.s3_region_spec(),
    {
        &self.s3_region
    }

    /// The access key for the object store.
    pub fn s3_access_key(&self) -> (r: &String)
        ensures
            *r == self.s3_access_key_spec(),
    {
        &self.s3_access_key
    }

    /// The secret key for the object store.
    pub fn s3_secret_key(&self) -> (r: &String)
        ensures
            *r == self.s3_secret_key_spec(),
    {
        &self.s3_secret_key
    }

    /// Whether a file whose columns are named `file_field_names` can be read
    /// by this scan: its format is Parquet and its columns are exactly the
    /// schema's, with the same names in the same order.
    pub fn accepts_file(&self, file_field_names: &Vec<String>) -> (r: bool)
        ensures
            r == (self.file_format_spec() == FileFormat::Parquet && name_texts(
                self.schema_spec().field_names@,
            ) == name_texts(file_field_names@)),
    {
        if self.file_format != FileFormat::Parquet {
            return false;
        }
        let names = &self.schema.field_names;
        if names.len() != file_field_names.len() {
            assert(name_texts(names@).len() != name_texts(file_field_names@).len());
            return false;
        }
        let mut i: usize = 0;
        while i < names.len()
            invariant
                self.file_format == FileFormat::Parquet,
                names == self.schema.field_names,
                i <= names@.len(),
                names@.len() == file_field_names@.len(),
                forall|j: int| 0 <= j < i ==> (#[trigger] names@[j])@ == file_field_names@[j]@,
            decreases names.len() - i,
        {
            if !(names[i] == file_field_names[i]) {
                assert(name_texts(names@)[i as int] != name_texts(file_field_names@)[i as int]);
                return false;
            }
            i = i + 1;
        }
        assert(name_texts(names@) =~= name_texts(file_field_names@));
        true
    }
}

} // verus!
