//! Readers and writers for the records, with the settings that the format
//! of the records asks for.

use vstd::prelude::*;

verus! {

/// `csv::Reader`, which is carried through and never looked into.
#[verifier::external_type_specification]
#[verifier::external_body]
#[verifier::reject_recursive_types(R)]
pub struct ExReader<R>(::csv::Reader<R>);

/// `csv::WriterBuilder`, which is carried through and never looked into.
#[verifier::external_type_specification]
#[verifier::external_body]
pub struct ExWriterBuilder(::csv::WriterBuilder);

/// How much white space a reader takes off.
#[derive(Clone, Copy, Debug, PartialEq, Eq)]
pub enum Trim {
    /// Fields and headers stay as they are.
    Nothing,
    /// White space is taken off the headers.
    Headers,
    /// White space is taken off the fields, not off the headers.
    Fields,
    /// White space is taken off fields and headers.
    All,
}

/// `csv::ReaderBuilder::from_reader`, on a builder with the two settings
/// given: a reader over `source`.
///
/// Trusted: nothing is stated of the reader, which cannot be looked into.
#[verifier::external_body]
fn reader_over<R: std::io::Read>(source: R, has_headers: bool, trim: Trim) -> ::csv::Reader<R> {
    let trim = match trim {
        Trim::Nothing => ::csv::Trim::None,
        Trim::Headers => ::csv::Trim::Headers,
        Trim::Fields => ::csv::Trim::Fields,
        Trim::All => ::csv::Trim::All,
    };
    ::csv::ReaderBuilder::new().has_headers(has_headers).trim(trim).from_reader(source)
}

/// `csv::WriterBuilder::new`, with the setting given.
///
/// Trusted: nothing is stated of the builder, which cannot be looked into.
#[verifier::external_body]
fn writer_settings(has_headers: bool) -> ::csv::WriterBuilder {
    let mut builder = ::csv::WriterBuilder::new();
    builder.has_headers(has_headers);
    builder
}

/// Builds readers of records: the first row holds the headers, and white
/// space around headers and fields does not count.
pub struct CsvReaderBuilder<R> {
    source: R,
    has_headers: bool,
    trim: Trim,
}

impl<R> CsvReaderBuilder<R> {
    /// Where the records are read from.
    pub closed spec fn source(self) -> R {
        self.source
    }

    /// Whether the first row is taken as the headers.
    pub closed spec fn has_headers(self) -> bool {
        self.has_headers
    }

    /// How much white space is taken off.
    pub closed spec fn trim(self) -> Trim {
        self.trim
    }

    /// A builder of a reader over `reader`, with headers, that takes white
    /// space off headers and fields.
    pub fn new(reader: R) -> (r: Self)
        ensures
            r.source() == reader,
            r.has_headers(),
            r.trim() == Trim::All,
    {
        CsvReaderBuilder { source: reader, has_headers: true, trim: Trim::All }
    }
}

impl<R: std::io::Read> CsvReaderBuilder<R> {
    /// The reader: over the source, with the settings of the builder.
    pub fn build(self) -> ::csv::Reader<R> {
        reader_over(self.source, self.has_headers, self.trim)
    }
}

/// Builds writers of records: the first row written holds the headers.
pub struct CsvWriterBuilder<W> {
    sink: W,
    has_headers: bool,
}

impl<W> CsvWriterBuilder<W> {
    /// Where the records are written to.
    pub closed spec fn sink(self) -> W {
        self.sink
    }

    /// Whether a row of headers is written first.
    pub closed spec fn has_headers(self) -> bool {
        self.has_headers
    }

    /// A builder of a writer to `writer`, with headers.
    pub fn new(writer: W) -> (r: Self)
        ensures
            r.sink() == writer,
            r.has_headers(),
    {
        CsvWriterBuilder { sink: writer, has_headers: true }
    }

    /// The settings of the writer, and what it is to write to: the writer
    /// itself is `from_writer` of the first on the second.
    pub fn build(self) -> (r: (::csv::WriterBuilder, W))
        ensures
            r.1 == self.sink(),
    {
        (writer_settings(self.has_headers), self.sink)
    }
}

} // verus!
