use vstd::prelude::*;

use crate::error::NotificationError;
use crate::template::{select_template, slot_count_of, template_for, Template};

verus! {

/// What a notification document holds: its layout and the text of each slot,
/// in slot order.
pub struct DocumentView {
    pub template: Template,
    pub texts: Seq<Seq<char>>,
}

impl DocumentView {
    /// The document has exactly as many slots as its layout defines.
    pub open spec fn valid(self) -> bool {
        self.texts.len() == slot_count_of(self.template)
    }
}

/// The texts of `fields`, in order.
pub open spec fn field_texts(fields: Seq<String>) -> Seq<Seq<char>> {
    Seq::new(fields.len(), |i: int| fields[i]@)
}

/// `n` empty slots.
pub open spec fn empty_slots(n: nat) -> Seq<Seq<char>> {
    Seq::new(n, |i: int| Seq::<char>::empty())
}

/// A document made from a layout, whose text slots are filled by position.
pub struct NotificationDocument {
    template: Template,
    slots: Vec<String>,
}

impl View for NotificationDocument {
    type V = DocumentView;

    closed spec fn view(&self) -> DocumentView {
        DocumentView { template: self.template, texts: Seq::new(self.slots@.len(), |i: int| self.slots@[i]@) }
    }
}

impl NotificationDocument {
    /// A fresh document of layout `template`, with every slot empty.
    pub fn from_template(template: Template) -> (r: NotificationDocument)
        ensures
            r@.template == template,
            r@.texts == empty_slots(slot_count_of(template)),
            r@.valid(),
    {
        let n = template.slot_count();
        let mut slots: Vec<String> = Vec::new();
        let mut i: usize = 0;
        while i < n
            invariant
                i <= n,
                slots@.len() == i,
                forall|j: int| 0 <= j < i ==> (#[trigger] slots@[j])@ == Seq::<char>::empty(),
            decreases n - i,
        {
            slots.push(String::new());
            i = i + 1;
        }
        let r = NotificationDocument { template, slots };
        assert(r@.texts =~= empty_slots(slot_count_of(template)));
        r
    }

    /// The layout this document was made from.
    pub fn template(&self) -> (r: Template)
        ensures
            r == self@.template,
    {
        self.template
    }

    /// The number of text slots.
    pub fn slot_count(&self) -> (r: usize)
        ensures
            r == self@.texts.len(),
    {
        self.slots.len()
    }

    /// The text of slot `index`.
    pub fn text(&self, index: usize) -> (r: &String)
        requires
            index < self@.texts.len(),
        ensures
            r@ == self@.texts[index as int],
    {
        &self.slots[index]
    }

    /// Puts `text` into slot `index`. An index past the layout's slots is
    /// refused and leaves the document as it was.
    pub fn bind(&mut self, index: usize, text: String) -> (r: Result<(), NotificationError>)
        ensures
            index < old(self)@.texts.len() ==> r is Ok && final(self)@ == (DocumentView {
                template: old(self)@.template,
                texts: old(self)@.texts.update(index as int, text@),
            }),
            index >= old(self)@.texts.len() ==> r == Err::<(), NotificationError>(
                NotificationError::SlotIndexOutOfRange,
            ) && final(self)@ == old(self)@,
    {
        if index < self.slots.len() {
            self.slots.set(index, text);
            assert(self@.texts =~= old(self)@.texts.update(index as int, text@));
            Ok(())
        } else {
            Err(NotificationError::SlotIndexOutOfRange)
        }
    }
}

/// Makes the document for `fields`: the layout with as many slots as there
/// are fields, and field `i` in slot `i`. A field count that no layout has is
/// refused.
pub fn build_document(fields: &Vec<String>) -> (r: Result<NotificationDocument, NotificationError>)
    ensures
        match r {
            Ok(d) => template_for(fields@.len()) == Some(d@.template) && d@.texts == field_texts(
                fields@,
            ),
            Err(e) => template_for(fields@.len()) is None && e == NotificationError::InvalidFieldCount,
        },
{
    let template = match select_template(fields.len()) {
        Some(t) => t,
        None => return Err(NotificationError::InvalidFieldCount),
    };
    let mut doc = NotificationDocument::from_template(template);
    let n = fields.len();
    let mut i: usize = 0;
    while i < n
        invariant
            i <= n,
            n == fields@.len(),
            doc@.template == template,
            doc@.texts.len() == n,
            forall|j: int| 0 <= j < i ==> doc@.texts[j] == fields@[j]@,
        decreases n - i,
    {
        let _ = doc.bind(i, fields[i].clone());
        i = i + 1;
    }
    assert(doc@.texts =~= field_texts(fields@));
    Ok(doc)
}

} // verus!
