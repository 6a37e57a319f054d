//! Where the generated invoice documents live.  The document layout
//! itself is the renderer's own; the core only decides the two file
//! names an invoice's artifacts carry, so that every exit path can
//! release exactly those files.

use vstd::prelude::*;

use crate::text::{push_char, push_u64_dec, spec_dec_digits};

verus! {

/// Names the generated files for invoice documents under one directory.
pub struct InvoiceGenerator {
    pub output_dir: String,
}

impl View for InvoiceGenerator {
    type V = Seq<char>;

    open spec fn view(&self) -> Seq<char> {
        self.output_dir@
    }
}

/// The markdown file of invoice number `n` under `dir`.
pub open spec fn spec_markdown_path(dir: Seq<char>, n: int) -> Seq<char> {
    dir + "/invoice_"@ + spec_dec_digits(n) + ".md"@
}

/// The rendered document of invoice number `n` under `dir`.
pub open spec fn spec_document_path(dir: Seq<char>, n: int) -> Seq<char> {
    dir + "/invoice_"@ + spec_dec_digits(n) + ".pdf"@
}

impl InvoiceGenerator {
    /// A generator writing under `output_dir`; the caller makes sure the
    /// directory exists.
    pub fn new(output_dir: &str) -> (g: InvoiceGenerator)
        ensures
            g@ == output_dir@,
    {
        InvoiceGenerator { output_dir: output_dir.to_owned() }
    }

    /// The markdown path for invoice number `number`.
    pub fn markdown_path(&self, number: i32) -> (r: String)
        requires
            number >= 0,
        ensures
            r@ == spec_markdown_path(self@, number as int),
    {
        let mut s = self.output_dir.clone();
        s.append("/invoice_");
        push_u64_dec(&mut s, number as u64);
        s.append(".md");
        proof {
            assert(s@ =~= spec_markdown_path(self@, number as int));
        }
        s
    }

    /// The rendered document path for invoice number `number`.
    pub fn document_path(&self, number: i32) -> (r: String)
        requires
            number >= 0,
        ensures
            r@ == spec_document_path(self@, number as int),
    {
        let mut s = self.output_dir.clone();
        s.append("/invoice_");
        push_u64_dec(&mut s, number as u64);
        s.append(".pdf");
        proof {
            assert(s@ =~= spec_document_path(self@, number as int));
        }
        s
    }
}

} // verus!
