//! Text recognition logic: the charset file format, punctuation classes,
//! greedy CTC decoding of the model output, and how inputs are batched.
use vstd::prelude::*;
use vstd::utf8::{valid_utf8, decode_utf8, encode_utf8_decode_utf8};
use vstd::std_specs::iter::IteratorSpec;
use vstd::string::StringSliceAdditionalSpecFns;
use core::str::Utf8Error;
use crate::error::OcrError;
use crate::text::{append_decimal_list, decimal_list};

verus! {

// ============== Punctuation ==============

/// The common punctuation marks, which are kept at a lower confidence.
pub open spec fn punctuation_marks() -> Seq<char> {
    seq![
        ',', '.', '!', '?', ';', ':', '"', '\'', '(', ')', '[', ']', '{', '}', '-', '_', '/', '\\',
        '|', '@', '#', '$', '%', '&', '*', '+', '=', '~', '，', '。', '！', '？', '；', '：', '、',
        '「', '」', '『', '』', '（', '）', '【', '】', '《', '》', '—', '…', '·', '～',
    ]
}

/// `ch` is one of the common punctuation marks.
pub open spec fn is_punctuation_char(ch: char) -> bool {
    punctuation_marks().contains(ch)
}

/// The common punctuation marks, in table order.
pub fn punctuations() -> (r: Vec<char>)
    ensures
        r@ == punctuation_marks(),
{
    let r = vec![
        ',', '.', '!', '?', ';', ':', '"', '\'', '(', ')', '[', ']', '{', '}', '-', '_', '/', '\\',
        '|', '@', '#', '$', '%', '&', '*', '+', '=', '~', '，', '。', '！', '？', '；', '：', '、',
        '「', '」', '『', '』', '（', '）', '【', '】', '《', '》', '—', '…', '·', '～',
    ];
    assert(r@ =~= punctuation_marks());
    r
}

/// Check if character is punctuation
pub fn is_punctuation(ch: char) -> (r: bool)
    ensures
        r == is_punctuation_char(ch),
{
    let marks = punctuations();
    let mut i: usize = 0;
    while i < marks.len()
        invariant
            marks@ == punctuation_marks(),
            i <= marks@.len(),
            forall|j: int| 0 <= j < i ==> marks@[j] != ch,
        decreases marks@.len() - i,
    {
        if marks[i] == ch {
            assert(marks@[i as int] == ch);
            return true;
        }
        i = i + 1;
    }
    false
}

// ============== Charset ==============

#[verifier::external_type_specification]
#[verifier::external_body]
pub struct ExUtf8Error(Utf8Error);

/// The error that `std::str::from_utf8` reports for the given bytes.
pub uninterp spec fn utf8_error_of(data: Seq<u8>) -> Utf8Error;

/// The `Display` text of a UTF-8 decoding error.
pub uninterp spec fn utf8_error_text(e: Utf8Error) -> Seq<char>;

/// `std::str::from_utf8`: succeeds exactly on valid UTF-8, and the string it
/// returns holds exactly the given bytes.
#[verifier::external_body]
fn str_from_utf8(data: &[u8]) -> (r: Result<&str, Utf8Error>)
    ensures
        r is Ok <==> valid_utf8(data@),
        r matches Ok(s) ==> s.spec_bytes() == data@,
        r matches Err(e) ==> e == utf8_error_of(data@),
{
    core::str::from_utf8(data)
}

/// The `Display` text of a UTF-8 decoding error.
#[verifier::external_body]
fn utf8_error_message(e: &Utf8Error) -> (r: String)
    ensures
        r@ == utf8_error_text(*e),
{
    e.to_string()
}

/// The characters of `s` without line feeds and carriage returns.
pub open spec fn strip_line_breaks(s: Seq<char>) -> Seq<char>
    decreases s.len(),
{
    if s.len() == 0 {
        Seq::empty()
    } else {
        let rest = strip_line_breaks(s.drop_last());
        if s.last() == '\n' || s.last() == '\r' {
            rest
        } else {
            rest.push(s.last())
        }
    }
}

/// The charset that a charset text describes: one character per entry, with
/// the blank token first and a padding token last (both a space).
pub open spec fn charset_from_text(text: Seq<char>) -> Seq<char> {
    seq![' '] + strip_line_breaks(text) + seq![' ']
}

/// Parse charset data: UTF-8 text with one character per line; a blank
/// token is put first and a padding token last. Text without any character
/// besides line breaks is rejected.
pub fn parse_charset(data: &[u8]) -> (r: Result<Vec<char>, OcrError>)
    ensures
        !valid_utf8(data@) ==> (r matches Err(OcrError::CharsetError(m)) && m@
            == "UTF-8 decode error: "@ + utf8_error_text(utf8_error_of(data@))),
        valid_utf8(data@) && strip_line_breaks(decode_utf8(data@)).len() == 0 ==> (r matches Err(
            OcrError::CharsetError(m),
        ) && m@ == "Charset too small"@),
        valid_utf8(data@) && strip_line_breaks(decode_utf8(data@)).len() > 0 ==> (r matches Ok(v)
            && v@ == charset_from_text(decode_utf8(data@))),
{
    let content = match str_from_utf8(data) {
        Ok(s) => s,
        Err(e) => {
            let mut m = String::from_str("UTF-8 decode error: ");
            m.append(utf8_error_message(&e).as_str());
            return Err(OcrError::CharsetError(m));
        },
    };
    proof {
        encode_utf8_decode_utf8(content@);
    }
    let ghost text = content@;
    assert(text == decode_utf8(data@));

    let mut charset: Vec<char> = vec![' '];
    assert(text.take(0) =~= Seq::<char>::empty());
    assert(charset@ =~= seq![' '] + strip_line_breaks(text.take(0)));

    for ch in it: content.chars()
        invariant
            it.seq() == text,
            charset@ == seq![' '] + strip_line_breaks(text.take(it.index())),
    {
        assert(text.take(it.index() + 1).drop_last() =~= text.take(it.index()));
        if ch != '\n' && ch != '\r' {
            charset.push(ch);
        }
        assert(charset@ =~= seq![' '] + strip_line_breaks(text.take(it.index() + 1)));
    }
    assert(text.take(text.len() as int) =~= text);

    charset.push(' ');
    assert(charset@ =~= charset_from_text(text));

    if charset.len() < 3 {
        return Err(OcrError::CharsetError(String::from_str("Charset too small")));
    }
    Ok(charset)
}

// ============== Model output ==============

/// The sequence length and class count of a recognition output of the given
/// shape: `[batch, seq_len, classes]` or `[seq_len, classes]`.
pub open spec fn output_dims_of(shape: Seq<usize>) -> Option<(usize, usize)> {
    if shape.len() == 3 {
        Some((shape[1], shape[2]))
    } else if shape.len() == 2 {
        Some((shape[0], shape[1]))
    } else {
        None
    }
}

/// Reads `(seq_len, num_classes)` from the shape of a recognition output;
/// other ranks, and an output without classes, are rejected.
pub fn output_dims(shape: &[usize]) -> (r: Result<(usize, usize), OcrError>)
    ensures
        output_dims_of(shape@) is None ==> (r matches Err(OcrError::PostprocessError(m)) && m@
            == "Invalid output shape: "@ + decimal_list(shape@)),
        output_dims_of(shape@) matches Some((s, c)) && c == 0 ==> (r matches Err(
            OcrError::PostprocessError(m),
        ) && m@ == "Invalid output shape with zero classes"@),
        output_dims_of(shape@) matches Some((s, c)) ==> (c != 0 ==> r == Ok::<
            (usize, usize),
            OcrError,
        >((s, c))),
{
    let (seq_len, num_classes) = if shape.len() == 3 {
        (shape[1], shape[2])
    } else if shape.len() == 2 {
        (shape[0], shape[1])
    } else {
        let mut m = String::from_str("Invalid output shape: ");
        append_decimal_list(&mut m, shape);
        return Err(OcrError::PostprocessError(m));
    };
    if num_classes == 0 {
        return Err(
            OcrError::PostprocessError(String::from_str("Invalid output shape with zero classes")),
        );
    }
    Ok((seq_len, num_classes))
}

// ============== Greedy CTC decoding ==============

/// Greedy CTC decoding works on, per time step, the index of the most probable
/// class (`best`) and whether its score reaches the threshold for regular
/// characters (`keep_regular`) and for punctuation (`keep_punct`).
///
/// Step `t` emits a character when its class is not the blank (index 0),
/// differs from the class of the previous step (consecutive repeats collapse),
/// lies inside the charset, and its score reaches the threshold of its class.
pub open spec fn ctc_step_emits(
    best: Seq<usize>,
    keep_regular: Seq<bool>,
    keep_punct: Seq<bool>,
    charset: Seq<char>,
    t: int,
) -> bool {
    let idx = best[t];
    let prev = if t == 0 {
        0usize
    } else {
        best[t - 1]
    };
    &&& idx != 0
    &&& idx != prev
    &&& idx < charset.len()
    &&& if is_punctuation_char(charset[idx as int]) {
        keep_punct[t]
    } else {
        keep_regular[t]
    }
}

/// The characters emitted by the first `n` time steps, each with its time step.
pub open spec fn ctc_decode(
    best: Seq<usize>,
    keep_regular: Seq<bool>,
    keep_punct: Seq<bool>,
    charset: Seq<char>,
    n: int,
) -> Seq<(usize, char)>
    decreases n,
{
    if n <= 0 {
        Seq::empty()
    } else {
        let before = ctc_decode(best, keep_regular, keep_punct, charset, n - 1);
        if ctc_step_emits(best, keep_regular, keep_punct, charset, n - 1) {
            before.push(((n - 1) as usize, charset[best[n - 1] as int]))
        } else {
            before
        }
    }
}

/// Greedy CTC decoding: the emitted characters, each with the time step that
/// produced it, in time order.
pub fn ctc_greedy_decode(
    best: &[usize],
    keep_regular: &[bool],
    keep_punct: &[bool],
    charset: &[char],
) -> (r: Vec<(usize, char)>)
    requires
        keep_regular@.len() == best@.len(),
        keep_punct@.len() == best@.len(),
    ensures
        r@ == ctc_decode(best@, keep_regular@, keep_punct@, charset@, best@.len() as int),
{
    let mut out: Vec<(usize, char)> = Vec::new();
    let mut prev_idx: usize = 0;
    let mut t: usize = 0;
    while t < best.len()
        invariant
            t <= best@.len(),
            keep_regular@.len() == best@.len(),
            keep_punct@.len() == best@.len(),
            prev_idx == (if t == 0 {
                0usize
            } else {
                best@[t - 1]
            }),
            out@ == ctc_decode(best@, keep_regular@, keep_punct@, charset@, t as int),
        decreases best@.len() - t,
    {
        let max_idx = best[t];
        if max_idx != 0 && max_idx != prev_idx {
            if max_idx < charset.len() {
                let ch = charset[max_idx];
                let keep = if is_punctuation(ch) {
                    keep_punct[t]
                } else {
                    keep_regular[t]
                };
                if keep {
                    out.push((t, ch));
                }
            }
        }
        prev_idx = max_idx;
        t = t + 1;
    }
    out
}

/// Every decoded character: the steps are strictly increasing and within the
/// output, the class at its step is not the blank, differs from the class of
/// the step before, and the character is the charset entry of that class.
pub proof fn law_ctc_emissions_well_formed(
    best: Seq<usize>,
    keep_regular: Seq<bool>,
    keep_punct: Seq<bool>,
    charset: Seq<char>,
    n: int,
)
    requires
        0 <= n <= best.len(),
        best.len() <= usize::MAX,
    ensures
        ({
            let d = ctc_decode(best, keep_regular, keep_punct, charset, n);
            &&& d.len() <= n
            &&& forall|i: int, j: int| 0 <= i < j < d.len() ==> d[i].0 < d[j].0
            &&& forall|i: int|
                #![trigger d[i]]
                0 <= i < d.len() ==> {
                    let t = d[i].0 as int;
                    &&& 0 <= t < n
                    &&& best[t] != 0
                    &&& best[t] < charset.len()
                    &&& d[i].1 == charset[best[t] as int]
                    &&& (t > 0 ==> best[t] != best[t - 1])
                }
        }),
    decreases n,
{
    if n > 0 {
        law_ctc_emissions_well_formed(best, keep_regular, keep_punct, charset, n - 1);
        let prev = ctc_decode(best, keep_regular, keep_punct, charset, n - 1);
        let d = ctc_decode(best, keep_regular, keep_punct, charset, n);
        if ctc_step_emits(best, keep_regular, keep_punct, charset, n - 1) {
            assert(d == prev.push(((n - 1) as usize, charset[best[n - 1] as int])));
            assert forall|i: int, j: int| 0 <= i < j < d.len() implies d[i].0 < d[j].0 by {
                if j == d.len() - 1 {
                    assert(d[i] == prev[i]);
                } else {
                    assert(d[i] == prev[i] && d[j] == prev[j]);
                }
            }
            assert forall|i: int|
                #![trigger d[i]]
                0 <= i < d.len() implies {
                    let t = d[i].0 as int;
                    &&& 0 <= t < n
                    &&& best[t] != 0
                    &&& best[t] < charset.len()
                    &&& d[i].1 == charset[best[t] as int]
                    &&& (t > 0 ==> best[t] != best[t - 1])
                } by {
                if i < prev.len() {
                    assert(d[i] == prev[i]);
                }
            }
        } else {
            assert(d == prev);
        }
    }
}

/// A time step appears in the decoded output exactly when it emits, and then
/// with its charset entry.
proof fn lemma_ctc_step_in_output(
    best: Seq<usize>,
    keep_regular: Seq<bool>,
    keep_punct: Seq<bool>,
    charset: Seq<char>,
    n: int,
    t: int,
)
    requires
        0 <= t < n <= best.len(),
        best.len() <= usize::MAX,
    ensures
        (exists|i: int|
            0 <= i < ctc_decode(best, keep_regular, keep_punct, charset, n).len()
                && #[trigger] ctc_decode(best, keep_regular, keep_punct, charset, n)[i] == (
                t as usize,
                charset[best[t] as int],
            )) <==> ctc_step_emits(best, keep_regular, keep_punct, charset, t),
    decreases n,
{
    let d = ctc_decode(best, keep_regular, keep_punct, charset, n);
    let prev = ctc_decode(best, keep_regular, keep_punct, charset, n - 1);
    law_ctc_emissions_well_formed(best, keep_regular, keep_punct, charset, n - 1);
    if t < n - 1 {
        lemma_ctc_step_in_output(best, keep_regular, keep_punct, charset, n - 1, t);
        if ctc_step_emits(best, keep_regular, keep_punct, charset, n - 1) {
            assert(d == prev.push(((n - 1) as usize, charset[best[n - 1] as int])));
            if ctc_step_emits(best, keep_regular, keep_punct, charset, t) {
                let i = choose|i: int|
                    0 <= i < prev.len() && #[trigger] prev[i] == (t as usize, charset[best[t] as int]);
                assert(d[i] == prev[i]);
            } else {
                assert forall|i: int| 0 <= i < d.len() implies #[trigger] d[i] != (
                    t as usize,
                    charset[best[t] as int],
                ) by {
                    if i < prev.len() {
                        assert(d[i] == prev[i]);
                    }
                }
            }
        }
    } else {
        // no earlier step can stand for step n - 1
        assert forall|i: int| 0 <= i < prev.len() implies (#[trigger] prev[i]).0 < n - 1 by {}
        if ctc_step_emits(best, keep_regular, keep_punct, charset, n - 1) {
            assert(d == prev.push(((n - 1) as usize, charset[best[n - 1] as int])));
            assert(d[prev.len() as int] == ((n - 1) as usize, charset[best[n - 1] as int]));
        } else {
            assert forall|i: int| 0 <= i < d.len() implies #[trigger] d[i] != (
                t as usize,
                charset[best[t] as int],
            ) by {
                assert(d[i] == prev[i]);
            }
        }
    }
}

/// Greedy CTC decoding keeps a time step exactly by the threshold flag of its
/// own class: a step whose class is not the blank, differs from the class of
/// the step before and lies inside the charset is in the output exactly when
/// its punctuation flag holds (for a punctuation mark) or its regular flag
/// holds (for any other character), whatever the other flag says; a step
/// failing any of the first three conditions is never in the output.
pub proof fn law_ctc_keeps_steps_by_their_own_threshold(
    best: Seq<usize>,
    keep_regular: Seq<bool>,
    keep_punct: Seq<bool>,
    charset: Seq<char>,
    t: int,
)
    requires
        0 <= t < best.len(),
        best.len() <= usize::MAX,
    ensures
        ({
            let d = ctc_decode(best, keep_regular, keep_punct, charset, best.len() as int);
            let idx = best[t];
            let prev = if t == 0 {
                0usize
            } else {
                best[t - 1]
            };
            let emitted = exists|i: int|
                0 <= i < d.len() && #[trigger] d[i] == (t as usize, charset[idx as int]);
            &&& (idx == 0 || idx == prev || idx >= charset.len()) ==> !emitted
            &&& (idx != 0 && idx != prev && idx < charset.len() && is_punctuation_char(
                charset[idx as int],
            )) ==> (emitted <==> keep_punct[t])
            &&& (idx != 0 && idx != prev && idx < charset.len() && !is_punctuation_char(
                charset[idx as int],
            )) ==> (emitted <==> keep_regular[t])
        }),
{
    lemma_ctc_step_in_output(best, keep_regular, keep_punct, charset, best.len() as int, t);
}

// ============== Batched outputs ==============

/// The number of samples of a batched recognition output, which must have the
/// three dimensions `[batch, seq_len, classes]`; a wrong shape is reported with
/// the message of region batches or of image batches.
pub fn batch_output_count(shape: &[usize], regions: bool) -> (r: Result<usize, OcrError>)
    ensures
        shape@.len() == 3 ==> r == Ok::<usize, OcrError>(shape@[0]),
        shape@.len() != 3 && regions ==> (r matches Err(OcrError::PostprocessError(m)) && m@
            == "Region batch inference output shape error: "@ + decimal_list(shape@)),
        shape@.len() != 3 && !regions ==> (r matches Err(OcrError::PostprocessError(m)) && m@
            == "Batch inference output shape error: "@ + decimal_list(shape@)),
{
    if shape.len() != 3 {
        let mut m = if regions {
            String::from_str("Region batch inference output shape error: ")
        } else {
            String::from_str("Batch inference output shape error: ")
        };
        append_decimal_list(&mut m, shape);
        return Err(OcrError::PostprocessError(m));
    }
    Ok(shape[0])
}

/// Text regions are rendered into tensors of a positive height.
pub fn check_region_target_height(target_height: u32) -> (r: Result<(), OcrError>)
    ensures
        target_height > 0 ==> r is Ok,
        target_height == 0 ==> (r matches Err(OcrError::InvalidParameter(m)) && m@
            == "Recognition target height must be greater than 0"@),
{
    if target_height == 0 {
        return Err(
            OcrError::InvalidParameter(
                String::from_str("Recognition target height must be greater than 0"),
            ),
        );
    }
    Ok(())
}

// ============== Batching ==============

/// Recognition of a list of images goes through batched inference only when
/// batching is enabled and there are more than two images.
pub open spec fn batched_recognition(image_count: usize, enable_batch: bool) -> bool {
    enable_batch && image_count > 2
}

/// Whether a list of `image_count` images is recognized in batches (otherwise
/// each image is recognized on its own).
pub fn uses_batched_recognition(image_count: usize, enable_batch: bool) -> (r: bool)
    ensures
        r == batched_recognition(image_count, enable_batch),
{
    !(image_count <= 2 || !enable_batch)
}

/// The number of chunks of at most `batch_size` items that `count` items make.
pub open spec fn chunk_count(count: nat, batch_size: nat) -> nat
    recommends
        batch_size > 0,
{
    if count % batch_size == 0 {
        count / batch_size
    } else {
        count / batch_size + 1
    }
}

/// The `[start, end)` ranges of consecutive chunks of at most `batch_size`
/// items out of `count`: all full except possibly the last.
pub open spec fn chunk_ranges(count: nat, batch_size: nat) -> Seq<(usize, usize)>
    recommends
        batch_size > 0,
{
    Seq::new(
        chunk_count(count, batch_size),
        |i: int|
            ((i * batch_size) as usize, (if (i + 1) * batch_size <= count {
                (i + 1) * batch_size
            } else {
                count as int
            }) as usize),
    )
}

proof fn lemma_chunk_start_in_range(count: nat, batch_size: nat, i: nat)
    requires
        batch_size > 0,
        i < chunk_count(count, batch_size),
    ensures
        i * batch_size < count,
{
    let q = count / batch_size;
    let rem = count % batch_size;
    vstd::arithmetic::div_mod::lemma_fundamental_div_mod(count as int, batch_size as int);
    if rem == 0 {
        assert(i * batch_size < count) by (nonlinear_arith)
            requires
                i + 1 <= q,
                count == batch_size * q + rem,
                rem == 0,
                batch_size > 0,
        ;
    } else {
        assert(i * batch_size < count) by (nonlinear_arith)
            requires
                i <= q,
                count == batch_size * q + rem,
                rem > 0,
                batch_size > 0,
        ;
    }
}

proof fn lemma_chunk_count_bounds(count: nat, batch_size: nat)
    requires
        batch_size > 0,
    ensures
        chunk_count(count, batch_size) <= count,
        chunk_count(count, batch_size) * batch_size >= count,
{
    let q = count / batch_size;
    let rem = count % batch_size;
    vstd::arithmetic::div_mod::lemma_fundamental_div_mod(count as int, batch_size as int);
    if rem == 0 {
        assert(q <= count) by (nonlinear_arith)
            requires
                count == batch_size * q,
                batch_size > 0,
        ;
        assert(q * batch_size >= count) by (nonlinear_arith)
            requires
                count == batch_size * q,
        ;
    } else {
        assert(q + 1 <= count) by (nonlinear_arith)
            requires
                count == batch_size * q + rem,
                0 < rem < batch_size,
        ;
        assert((q + 1) * batch_size >= count) by (nonlinear_arith)
            requires
                count == batch_size * q + rem,
                0 < rem < batch_size,
        ;
    }
}

/// The item ranges that `chunks(batch_size)` walks through for `count` items.
pub fn batch_ranges(count: usize, batch_size: usize) -> (r: Vec<(usize, usize)>)
    requires
        batch_size > 0,
    ensures
        r@ == chunk_ranges(count as nat, batch_size as nat),
{
    proof {
        lemma_chunk_count_bounds(count as nat, batch_size as nat);
    }
    let n: usize = if count % batch_size == 0 {
        count / batch_size
    } else {
        count / batch_size + 1
    };
    let ghost spec_ranges = chunk_ranges(count as nat, batch_size as nat);
    let mut r: Vec<(usize, usize)> = Vec::new();
    let mut start: usize = 0;
    let mut i: usize = 0;
    while i < n
        invariant
            batch_size > 0,
            n == chunk_count(count as nat, batch_size as nat),
            spec_ranges == chunk_ranges(count as nat, batch_size as nat),
            i <= n,
            i < n ==> start == i * batch_size,
            r@ =~= spec_ranges.take(i as int),
        decreases n - i,
    {
        proof {
            lemma_chunk_start_in_range(count as nat, batch_size as nat, i as nat);
            if i + 1 < n {
                lemma_chunk_start_in_range(count as nat, batch_size as nat, (i + 1) as nat);
            }
        }
        assert((i + 1) * batch_size == i * batch_size + batch_size) by (nonlinear_arith);
        let end = if count - start > batch_size {
            start + batch_size
        } else {
            count
        };
        assert(spec_ranges[i as int] == (start, end));
        r.push((start, end));
        assert(spec_ranges.take(i + 1) =~= spec_ranges.take(i as int).push(spec_ranges[i as int]));
        start = end;
        i = i + 1;
    }
    assert(spec_ranges.take(n as int) =~= spec_ranges);
    r
}

/// The region ranges that are rendered and recognized together: chunks of the
/// configured batch size, where a batch size of 0 counts as 1.
pub fn region_batch_ranges(count: usize, batch_size: usize) -> (r: Vec<(usize, usize)>)
    ensures
        r@ == chunk_ranges(count as nat, if batch_size > 0 { batch_size as nat } else { 1 }),
{
    let size = if batch_size > 0 { batch_size } else { 1 };
    batch_ranges(count, size)
}

/// The chunk ranges split `0..count` into consecutive, non-empty pieces of at
/// most `batch_size` items: the first starts at 0, each starts where the
/// previous ends, and the last ends at `count`.
pub proof fn law_chunk_ranges_partition(count: nat, batch_size: nat)
    requires
        batch_size > 0,
        count <= usize::MAX,
    ensures
        ({
            let r = chunk_ranges(count, batch_size);
            &&& count == 0 <==> r.len() == 0
            &&& r.len() > 0 ==> r[0].0 == 0 && r.last().1 == count
            &&& forall|i: int|
                #![trigger r[i]]
                0 <= i < r.len() ==> r[i].0 < r[i].1 && r[i].1 - r[i].0 <= batch_size
            &&& forall|i: int| 0 <= i < r.len() - 1 ==> #[trigger] r[i].1 == r[i + 1].0
        }),
{
    let r = chunk_ranges(count, batch_size);
    let n = chunk_count(count, batch_size);
    lemma_chunk_count_bounds(count, batch_size);
    assert forall|i: int| #![trigger r[i]] 0 <= i < r.len() implies r[i].0 < r[i].1 && r[i].1
        - r[i].0 <= batch_size by {
        lemma_chunk_start_in_range(count, batch_size, i as nat);
        assert((i + 1) * batch_size == i * batch_size + batch_size) by (nonlinear_arith);
    }
    assert forall|i: int| 0 <= i < r.len() - 1 implies #[trigger] r[i].1 == r[i + 1].0 by {
        lemma_chunk_start_in_range(count, batch_size, (i + 1) as nat);
        assert((i + 1) * batch_size == i * batch_size + batch_size) by (nonlinear_arith);
    }
    if count == 0 {
        assert(n == 0);
    }
    if n > 0 {
        lemma_chunk_start_in_range(count, batch_size, (n - 1) as nat);
        assert(n * batch_size == (n - 1) * batch_size + batch_size) by (nonlinear_arith)
            requires
                n > 0,
        ;
        assert(0 * batch_size == 0);
    }
}

// ============== Recognition plan ==============

/// One inference step of recognizing a list of images: a single image on its
/// own, or the images `start..end` as one batch.
#[derive(Debug, Clone, Copy, PartialEq, Eq)]
pub enum RecognitionStep {
    Single(usize),
    Batch(usize, usize),
}

/// The images `[start, end)` that a step covers.
pub open spec fn step_range(s: RecognitionStep) -> (int, int) {
    match s {
        RecognitionStep::Single(i) => (i as int, i + 1),
        RecognitionStep::Batch(start, end) => (start as int, end as int),
    }
}

/// A chunk of one image is recognized on its own, a larger chunk as a batch.
pub open spec fn chunk_step(chunk: (usize, usize)) -> RecognitionStep {
    if chunk.1 - chunk.0 == 1 {
        RecognitionStep::Single(chunk.0)
    } else {
        RecognitionStep::Batch(chunk.0, chunk.1)
    }
}

/// The steps that recognize `count` images: each image on its own unless
/// batching applies, and otherwise the chunks of `batch_size` images.
pub open spec fn recognition_steps(count: usize, enable_batch: bool, batch_size: nat) -> Seq<
    RecognitionStep,
> {
    if batched_recognition(count, enable_batch) {
        chunk_ranges(count as nat, batch_size).map_values(|c: (usize, usize)| chunk_step(c))
    } else {
        Seq::new(count as nat, |i: int| RecognitionStep::Single(i as usize))
    }
}

/// The inference steps that recognize a list of `image_count` images.
pub fn recognition_plan(image_count: usize, enable_batch: bool, batch_size: usize) -> (r: Vec<
    RecognitionStep,
>)
    requires
        batched_recognition(image_count, enable_batch) ==> batch_size > 0,
    ensures
        r@ == recognition_steps(image_count, enable_batch, batch_size as nat),
{
    let mut steps: Vec<RecognitionStep> = Vec::new();
    if !uses_batched_recognition(image_count, enable_batch) {
        let mut i: usize = 0;
        while i < image_count
            invariant
                i <= image_count,
                steps@ =~= Seq::new(i as nat, |k: int| RecognitionStep::Single(k as usize)),
            decreases image_count - i,
        {
            steps.push(RecognitionStep::Single(i));
            i = i + 1;
        }
        return steps;
    }
    let ranges = batch_ranges(image_count, batch_size);
    let ghost chunks = chunk_ranges(image_count as nat, batch_size as nat);
    let mut j: usize = 0;
    while j < ranges.len()
        invariant
            batch_size > 0,
            chunks == chunk_ranges(image_count as nat, batch_size as nat),
            ranges@ == chunks,
            j <= ranges@.len(),
            steps@ =~= chunks.take(j as int).map_values(|c: (usize, usize)| chunk_step(c)),
        decreases ranges@.len() - j,
    {
        let (start, end) = ranges[j];
        proof {
            law_chunk_ranges_partition(image_count as nat, batch_size as nat);
            assert(chunks.take(j + 1) =~= chunks.take(j as int).push(chunks[j as int]));
        }
        if end - start == 1 {
            steps.push(RecognitionStep::Single(start));
        } else {
            steps.push(RecognitionStep::Batch(start, end));
        }
        j = j + 1;
    }
    assert(chunks.take(chunks.len() as int) =~= chunks);
    steps
}

/// The steps recognize every image exactly once and in order: they cover
/// consecutive, non-empty ranges from the first image to the last, and no
/// batch is larger than the batch size.
pub proof fn law_recognition_steps_cover_images(count: usize, enable_batch: bool, batch_size: nat)
    requires
        batched_recognition(count, enable_batch) ==> batch_size > 0,
    ensures
        ({
            let steps = recognition_steps(count, enable_batch, batch_size);
            &&& count == 0 <==> steps.len() == 0
            &&& steps.len() > 0 ==> step_range(steps[0]).0 == 0 && step_range(steps.last()).1
                == count
            &&& forall|i: int|
                #![trigger steps[i]]
                0 <= i < steps.len() ==> step_range(steps[i]).0 < step_range(steps[i]).1
            &&& forall|i: int|
                0 <= i < steps.len() - 1 ==> step_range(#[trigger] steps[i]).1 == step_range(
                    steps[i + 1],
                ).0
            &&& forall|i: int|
                #![trigger steps[i]]
                0 <= i < steps.len() && batched_recognition(count, enable_batch) ==> step_range(
                    steps[i],
                ).1 - step_range(steps[i]).0 <= batch_size
        }),
{
    if batched_recognition(count, enable_batch) {
        law_chunk_ranges_partition(count as nat, batch_size);
        let chunks = chunk_ranges(count as nat, batch_size);
        let steps = recognition_steps(count, enable_batch, batch_size);
        assert forall|i: int| 0 <= i < steps.len() implies step_range(#[trigger] steps[i]) == (
            chunks[i].0 as int,
            chunks[i].1 as int,
        ) by {}
        if steps.len() > 0 {
            assert(step_range(steps[0]) == (chunks[0].0 as int, chunks[0].1 as int));
            assert(step_range(steps.last()) == (chunks.last().0 as int, chunks.last().1 as int));
        }
        assert forall|i: int| 0 <= i < steps.len() - 1 implies step_range(#[trigger] steps[i]).1
            == step_range(steps[i + 1]).0 by {
            assert(chunks[i].1 == chunks[i + 1].0);
        }
    }
}

// ============== Region corners ==============

/// The pixel corners `(left, top, right, bottom)` that an axis-aligned text
/// box is sampled between, inclusive, in an image of the given size; `None`
/// when the box keeps less than two pixels in a direction.
pub open spec fn rect_corners_of(
    left: i32,
    top: i32,
    width: u32,
    height: u32,
    image_width: u32,
    image_height: u32,
) -> Option<(u32, u32, u32, u32)> {
    let l: u32 = if left > 0 { left as u32 } else { 0 };
    let t: u32 = if top > 0 { top as u32 } else { 0 };
    let r_end: int = if l + width > u32::MAX { u32::MAX as int } else { l + width };
    let b_end: int = if t + height > u32::MAX { u32::MAX as int } else { t + height };
    let r_clip: int = if r_end < image_width { r_end } else { image_width as int };
    let b_clip: int = if b_end < image_height { b_end } else { image_height as int };
    let r: int = if r_clip > 0 { r_clip - 1 } else { 0 };
    let b: int = if b_clip > 0 { b_clip - 1 } else { 0 };
    if r <= l || b <= t {
        None
    } else {
        Some((l, t, r as u32, b as u32))
    }
}

/// The inclusive pixel corners an axis-aligned text box is sampled between.
pub fn rect_source_corners(
    left: i32,
    top: i32,
    width: u32,
    height: u32,
    image_width: u32,
    image_height: u32,
) -> (r: Option<(u32, u32, u32, u32)>)
    ensures
        r == rect_corners_of(left, top, width, height, image_width, image_height),
{
    let l: u32 = if left > 0 { left as u32 } else { 0 };
    let t: u32 = if top > 0 { top as u32 } else { 0 };
    let right = l.saturating_add(width).min(image_width).saturating_sub(1);
    let bottom = t.saturating_add(height).min(image_height).saturating_sub(1);
    if right <= l || bottom <= t {
        return None;
    }
    Some((l, t, right, bottom))
}

/// Sampling corners lie inside the image and inside the box, with at least
/// two pixels in each direction.
pub proof fn law_rect_corners_inside(
    left: i32,
    top: i32,
    width: u32,
    height: u32,
    image_width: u32,
    image_height: u32,
)
    ensures
        rect_corners_of(left, top, width, height, image_width, image_height) matches Some(
            (l, t, r, b),
        ) ==> {
            &&& l < r < image_width
            &&& t < b < image_height
            &&& r < l + width
            &&& b < t + height
        },
{
}

} // verus!
