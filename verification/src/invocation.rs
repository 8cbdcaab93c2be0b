//! Prepared invocations and their encoding into the word stream that the
//! initial task replays.

use vstd::prelude::*;
use vstd::bytes::{spec_u64_to_le_bytes, u64_to_le_bytes};
use vstd::pervasive::unreached;
use crate::args::InvocationArgs;
use crate::config::{Arch, Config};
use crate::error::EncodeError;
use crate::label::InvocationLabel;

verus! {

/// The largest label that a message tag can carry, plus one.
pub const LABEL_LIMIT: u64 = 0x4_0000_0000_0000;

/// The largest number of unwrapped or extra capabilities of a message,
/// plus one.
pub const CAPS_LIMIT: u64 = 8;

/// The largest number of plain words of a message, plus one.
pub const LENGTH_LIMIT: u64 = 0x80;

/// The message tag: the number of plain words in bits 0 to 6, the number of
/// extra capabilities from bit 7, the number of unwrapped capabilities from
/// bit 9 and the label from bit 12.
pub open spec fn spec_message_info(label: u64, caps: u64, extra_caps: u64, length: u64) -> u64 {
    label << 12 | caps << 9 | extra_caps << 7 | length
}

/// The label that a message tag carries.
pub open spec fn message_info_label(tag: u64) -> u64 {
    tag >> 12
}

/// The number of extra capabilities that a message tag carries.
pub open spec fn message_info_extra_caps(tag: u64) -> u64 {
    (tag >> 7) & 0x7
}

/// The number of plain words that a message tag carries.
pub open spec fn message_info_length(tag: u64) -> u64 {
    tag & 0x7f
}

/// The number of further times that the kernel replays the message.
pub open spec fn message_info_repeats(tag: u64) -> u64 {
    tag >> 32
}

/// Taking apart a tag that was made without unwrapped capabilities gives
/// back the label, the number of extra capabilities and the number of plain
/// words that it was made from.
pub proof fn lemma_message_info_round_trip(label: u64, extra_caps: u64, length: u64)
    requires
        label < LABEL_LIMIT,
        extra_caps < CAPS_LIMIT,
        length < LENGTH_LIMIT,
    ensures
        message_info_label(spec_message_info(label, 0, extra_caps, length)) == label,
        message_info_extra_caps(spec_message_info(label, 0, extra_caps, length)) == extra_caps,
        message_info_length(spec_message_info(label, 0, extra_caps, length)) == length,
{
    assert((label << 12 | 0u64 << 9 | extra_caps << 7 | length) >> 12 == label && ((label << 12
        | 0u64 << 9 | extra_caps << 7 | length) >> 7) & 0x7 == extra_caps && (label << 12 | 0u64
        << 9 | extra_caps << 7 | length) & 0x7f == length) by (bit_vector)
        requires
            label < 0x4_0000_0000_0000,
            extra_caps < 8,
            length < 0x80,
    ;
}

/// The bytes of a sequence of words, each word in little-endian order.
pub open spec fn words_to_bytes(words: Seq<u64>) -> Seq<u8>
    decreases words.len(),
{
    if words.len() == 0 {
        Seq::empty()
    } else {
        words_to_bytes(words.drop_last()) + spec_u64_to_le_bytes(words.last())
    }
}

/// Every word takes eight bytes.
pub proof fn lemma_words_to_bytes_len(words: Seq<u64>)
    ensures
        words_to_bytes(words).len() == 8 * words.len(),
    decreases words.len(),
{
    if words.len() > 0 {
        lemma_words_to_bytes_len(words.drop_last());
        vstd::bytes::lemma_auto_spec_u64_to_from_le_bytes();
    }
}

/// The bytes of two sequences of words in a row are the bytes of the first
/// followed by the bytes of the second.
pub proof fn lemma_words_to_bytes_concat(a: Seq<u64>, b: Seq<u64>)
    ensures
        words_to_bytes(a + b) == words_to_bytes(a) + words_to_bytes(b),
    decreases b.len(),
{
    if b.len() == 0 {
        assert(a + b =~= a);
        assert(words_to_bytes(a) + words_to_bytes(b) =~= words_to_bytes(a));
    } else {
        lemma_words_to_bytes_concat(a, b.drop_last());
        assert((a + b).drop_last() =~= a + b.drop_last());
        assert((a + b).last() == b.last());
        assert((words_to_bytes(a) + words_to_bytes(b.drop_last())) + spec_u64_to_le_bytes(
            b.last(),
        ) =~= words_to_bytes(a) + (words_to_bytes(b.drop_last()) + spec_u64_to_le_bytes(
            b.last(),
        )));
    }
}

/// The words of one group of arguments: the service capability, the extra
/// capabilities and the plain words.
pub open spec fn spec_group(args: &InvocationArgs, arch: Arch) -> Seq<u64> {
    seq![args.spec_service()] + args.spec_extra_caps() + args.spec_plain_args(arch)
}

/// Appends the little-endian bytes of `word` to `data`.
pub fn push_word(data: &mut Vec<u8>, word: u64)
    ensures
        final(data)@ == old(data)@ + spec_u64_to_le_bytes(word),
        final(data)@ == old(data)@ + words_to_bytes(seq![word]),
{
    let mut bytes: Vec<u8> = u64_to_le_bytes(word);
    data.append(&mut bytes);
    proof {
        reveal_with_fuel(words_to_bytes, 2);
        assert(seq![word].drop_last() =~= Seq::<u64>::empty());
        assert(seq![word].last() == word);
        assert(words_to_bytes(seq![word]) =~= spec_u64_to_le_bytes(word));
    }
}

/// Appends the little-endian bytes of each of `words` to `data`.
pub fn push_words(data: &mut Vec<u8>, words: &Vec<u64>)
    ensures
        final(data)@ == old(data)@ + words_to_bytes(words@),
{
    let mut i: usize = 0;
    assert(data@ =~= old(data)@ + words_to_bytes(words@.subrange(0, 0)));
    while i < words.len()
        invariant
            i <= words.len(),
            data@ == old(data)@ + words_to_bytes(words@.subrange(0, i as int)),
        decreases words.len() - i,
    {
        push_word(data, words[i]);
        proof {
            let next = words@.subrange(0, i + 1);
            assert(next.drop_last() =~= words@.subrange(0, i as int));
            assert(next.last() == words@[i as int]);
            assert(data@ =~= old(data)@ + words_to_bytes(next));
        }
        i = i + 1;
    }
    assert(words@.subrange(0, i as int) =~= words@);
}

/// One prepared kernel invocation.
pub struct Invocation {
    /// The label stands for the operation; the number that the kernel
    /// knows it by depends on the kernel build and is kept in `label_raw`.
    label: InvocationLabel,
    label_raw: u32,
    args: InvocationArgs,
    repeat: Option<(u32, InvocationArgs)>,
}

impl Invocation {
    pub closed spec fn spec_label(&self) -> InvocationLabel {
        self.label
    }

    pub closed spec fn spec_label_raw(&self) -> u32 {
        self.label_raw
    }

    pub closed spec fn spec_args(&self) -> InvocationArgs {
        self.args
    }

    /// The repeat that was attached, if any: how many times the operation
    /// runs in all, and the arguments of the second group.
    pub closed spec fn spec_repeat(&self) -> Option<(u32, InvocationArgs)> {
        self.repeat
    }

    /// The label is one that the arguments have on some architecture, and a
    /// repeat runs the operation more than once with arguments of the same
    /// variant.
    pub open spec fn wf(&self) -> bool {
        &&& (self.spec_label() == self.spec_args().spec_to_label(Arch::Aarch64)
            || self.spec_label() == self.spec_args().spec_to_label(Arch::Riscv64)
            || self.spec_label() == self.spec_args().spec_to_label(Arch::X86_64))
        &&& self.spec_repeat() matches Some((count, repeat_args)) ==> count > 1
            && self.spec_args().same_variant(&repeat_args)
    }

    /// The invocation with a repeat attached. A count of one or less
    /// attaches nothing.
    pub closed spec fn spec_repeat_with(self, count: u32, repeat_args: InvocationArgs) -> Invocation {
        if count > 1 {
            Invocation { repeat: Some((count, repeat_args)), ..self }
        } else {
            self
        }
    }

    /// What attaching a repeat changes, and what it leaves alone.
    pub proof fn lemma_repeat_with(self, count: u32, repeat_args: InvocationArgs)
        ensures
            self.spec_repeat_with(count, repeat_args).spec_label() == self.spec_label(),
            self.spec_repeat_with(count, repeat_args).spec_label_raw() == self.spec_label_raw(),
            self.spec_repeat_with(count, repeat_args).spec_args() == self.spec_args(),
            count > 1 ==> self.spec_repeat_with(count, repeat_args).spec_repeat() == Some(
                (count, repeat_args),
            ),
            count <= 1 ==> self.spec_repeat_with(count, repeat_args) == self,
    {
    }

    /// Prepares the invocation of `args` under `config`. The raw label is
    /// looked up once, here.
    pub fn new(config: &Config, args: InvocationArgs) -> (r: Invocation)
        requires
            config.spec_raw_label(args.spec_to_label(config.arch)) is Some,
        ensures
            r.wf(),
            r.spec_label() == args.spec_to_label(config.arch),
            Some(r.spec_label_raw()) == config.spec_raw_label(args.spec_to_label(config.arch)),
            r.spec_args() == args,
            r.spec_repeat() is None,
    {
        let label = args.to_label(config);
        let label_raw: u32 = match config.raw_label(label) {
            Some(raw) => raw,
            None => unreached(),
        };
        Invocation { label, label_raw, args, repeat: None }
    }

    /// Prepares the invocation of `args` under `config`, or reports that
    /// the kernel build has no usable number for its label.
    pub fn try_new(config: &Config, args: InvocationArgs) -> (r: Result<Invocation, EncodeError>)
        ensures
            r is Ok <==> config.spec_raw_label(args.spec_to_label(config.arch)) is Some,
            r matches Ok(inv) ==> {
                &&& inv.wf()
                &&& inv.spec_label() == args.spec_to_label(config.arch)
                &&& Some(inv.spec_label_raw()) == config.spec_raw_label(
                    args.spec_to_label(config.arch),
                )
                &&& inv.spec_args() == args
                &&& inv.spec_repeat() is None
            },
            r matches Err(e) ==> e == EncodeError::UnknownInvocationLabel,
    {
        let label = args.to_label(config);
        match config.raw_label(label) {
            Some(_) => Ok(Invocation::new(config, args)),
            None => Err(EncodeError::UnknownInvocationLabel),
        }
    }

    /// The label of the operation.
    pub fn label(&self) -> (r: InvocationLabel)
        ensures
            r == self.spec_label(),
    {
        self.label
    }

    /// The number of the label in the kernel build.
    pub fn label_raw(&self) -> (r: u32)
        ensures
            r == self.spec_label_raw(),
    {
        self.label_raw
    }

    /// The arguments of the operation.
    pub fn args(&self) -> (r: &InvocationArgs)
        ensures
            *r == self.spec_args(),
    {
        &self.args
    }

    /// How many times the operation runs in all, if a repeat is attached.
    pub fn repeat_count(&self) -> (r: Option<u32>)
        ensures
            r is Some <==> self.spec_repeat() is Some,
            r matches Some(count) ==> count == self.spec_repeat().unwrap().0,
    {
        match &self.repeat {
            Some((count, _)) => Some(*count),
            None => None,
        }
    }

    /// Attaches a repeat: the operation runs `count` times in all, and
    /// `repeat_args` is the second group of arguments. The count is limited
    /// to 32 bits by its place in the message tag.
    pub fn repeat(&mut self, count: u32, repeat_args: InvocationArgs)
        requires
            old(self).wf(),
            old(self).spec_repeat() is None,
            count > 1 ==> old(self).spec_args().same_variant(&repeat_args),
        ensures
            final(self).wf(),
            *final(self) == old(self).spec_repeat_with(count, repeat_args),
            final(self).spec_label() == old(self).spec_label(),
            final(self).spec_label_raw() == old(self).spec_label_raw(),
            final(self).spec_args() == old(self).spec_args(),
            final(self).spec_repeat() == (if count > 1 {
                Some((count, repeat_args))
            } else {
                None
            }),
    {
        if count > 1 {
            self.repeat = Some((count, repeat_args));
        }
    }

    /// Attaches a repeat as `repeat` does, or reports that `repeat_args` is
    /// of another variant than the invocation and leaves it as it was.
    pub fn try_repeat(&mut self, count: u32, repeat_args: InvocationArgs) -> (r: Result<
        (),
        EncodeError,
    >)
        requires
            old(self).wf(),
            old(self).spec_repeat() is None,
        ensures
            final(self).wf(),
            r is Ok <==> (count > 1 ==> old(self).spec_args().same_variant(&repeat_args)),
            r is Ok ==> *final(self) == old(self).spec_repeat_with(count, repeat_args),
            r matches Err(e) ==> e == EncodeError::RepeatVariantMismatch && *final(self) == *old(
                self,
            ),
    {
        if count > 1 && !self.args.is_same_variant(&repeat_args) {
            Err(EncodeError::RepeatVariantMismatch)
        } else {
            self.repeat(count, repeat_args);
            Ok(())
        }
    }

    /// Packs a message tag.
    pub fn message_info_new(label: u64, caps: u64, extra_caps: u64, length: u64) -> (r: u64)
        requires
            label < LABEL_LIMIT,
            caps < CAPS_LIMIT,
            extra_caps < CAPS_LIMIT,
            length < LENGTH_LIMIT,
        ensures
            r == spec_message_info(label, caps, extra_caps, length),
    {
        label << 12 | caps << 9 | extra_caps << 7 | length
    }

    /// Packs a message tag, or reports that a field is too large for it.
    pub fn try_message_info_new(label: u64, caps: u64, extra_caps: u64, length: u64) -> (r: Result<
        u64,
        EncodeError,
    >)
        ensures
            r is Ok <==> label < LABEL_LIMIT && caps < CAPS_LIMIT && extra_caps < CAPS_LIMIT
                && length < LENGTH_LIMIT,
            r matches Ok(tag) ==> tag == spec_message_info(label, caps, extra_caps, length),
            r matches Err(e) ==> e == EncodeError::InvocationFieldOutOfRange,
    {
        if label < LABEL_LIMIT && caps < CAPS_LIMIT && extra_caps < CAPS_LIMIT && length
            < LENGTH_LIMIT {
            Ok(Invocation::message_info_new(label, caps, extra_caps, length))
        } else {
            Err(EncodeError::InvocationFieldOutOfRange)
        }
    }

    /// Whether the invocation can be put on the wire for the architecture:
    /// its arguments, and those of its repeat, name only what the
    /// architecture has, and the number of plain words fits in the tag.
    pub open spec fn encodable_on(&self, arch: Arch) -> bool {
        &&& self.spec_args().encodable_on(arch)
        &&& self.spec_args().spec_plain_args(arch).len() < LENGTH_LIMIT
        &&& self.spec_repeat() matches Some((_, repeat_args)) ==> repeat_args.encodable_on(arch)
    }

    /// The tag of the message: label and counts of the first group of
    /// arguments, and with a repeat the count less one in the upper 32
    /// bits.
    pub open spec fn spec_tag(&self, arch: Arch) -> u64 {
        let base = spec_message_info(
            self.spec_label_raw() as u64,
            0,
            self.spec_args().spec_extra_caps().len() as u64,
            self.spec_args().spec_plain_args(arch).len() as u64,
        );
        match self.spec_repeat() {
            Some((count, _)) => base | (((count - 1) as u64) << 32),
            None => base,
        }
    }

    /// The words of the message: the tag, the group of the arguments and,
    /// with a repeat, the group of the repeat's arguments. No second tag
    /// stands between the groups.
    pub open spec fn spec_words(&self, arch: Arch) -> Seq<u64> {
        seq![self.spec_tag(arch)] + spec_group(&self.spec_args(), arch) + (match self.spec_repeat() {
            Some((_, repeat_args)) => spec_group(&repeat_args, arch),
            None => Seq::empty(),
        })
    }

    /// The bytes of the message.
    pub open spec fn spec_raw_invocation(&self, arch: Arch) -> Seq<u8> {
        words_to_bytes(self.spec_words(arch))
    }

    /// Attaching a repeat with a count of one or less changes nothing of
    /// the bytes of the message.
    pub proof fn lemma_repeat_once_is_no_repeat(
        self,
        count: u32,
        repeat_args: InvocationArgs,
        arch: Arch,
    )
        requires
            count <= 1,
        ensures
            self.spec_repeat_with(count, repeat_args).spec_raw_invocation(arch)
                == self.spec_raw_invocation(arch),
    {
    }

    /// The largest raw label, plus one, that leaves the upper 32 bits of
    /// the tag to the repeat count alone.
    pub open spec fn spec_short_label_limit() -> u32 {
        0x10_0000
    }

    /// With a count above one the message is the one tag, the group of the
    /// arguments and the group of the repeat's arguments. The tag is the
    /// tag without the repeat with the count less one set into its upper
    /// 32 bits, so that its lower 32 bits are unchanged.
    pub proof fn lemma_repeat_many(self, count: u32, repeat_args: InvocationArgs, arch: Arch)
        requires
            self.spec_repeat() is None,
            count > 1,
        ensures
            ({
                let repeated = self.spec_repeat_with(count, repeat_args);
                &&& repeated.spec_words(arch) == seq![repeated.spec_tag(arch)] + spec_group(
                    &self.spec_args(),
                    arch,
                ) + spec_group(&repeat_args, arch)
                &&& repeated.spec_raw_invocation(arch) == spec_u64_to_le_bytes(
                    repeated.spec_tag(arch),
                ) + words_to_bytes(spec_group(&self.spec_args(), arch)) + words_to_bytes(
                    spec_group(&repeat_args, arch),
                )
                &&& repeated.spec_tag(arch) == self.spec_tag(arch) | (((count - 1) as u64) << 32)
                &&& repeated.spec_tag(arch) & 0xffff_ffff == self.spec_tag(arch) & 0xffff_ffff
            }),
    {
        let repeated = self.spec_repeat_with(count, repeat_args);
        let tag = repeated.spec_tag(arch);
        let group = spec_group(&self.spec_args(), arch);
        let repeat_group = spec_group(&repeat_args, arch);
        lemma_words_to_bytes_concat(seq![tag], group);
        lemma_words_to_bytes_concat(seq![tag] + group, repeat_group);
        reveal_with_fuel(words_to_bytes, 2);
        assert(seq![tag].drop_last() =~= Seq::<u64>::empty());
        assert(words_to_bytes(seq![tag]) =~= spec_u64_to_le_bytes(tag));
        let base: u64 = self.spec_tag(arch);
        let less: u64 = (count - 1) as u64;
        assert((base | (less << 32)) & 0xffff_ffff == base & 0xffff_ffff) by (bit_vector);
    }

    /// The two groups of a repeated message are equally long, and the
    /// message has one word more than both together, unless the operation
    /// is a register write whose two register lists differ in length: the
    /// tag describes the first group alone.
    pub proof fn lemma_repeat_length(self, count: u32, repeat_args: InvocationArgs, arch: Arch)
        requires
            self.spec_repeat() is None,
            count > 1,
            self.spec_args().same_variant(&repeat_args),
            self.spec_args() matches InvocationArgs::TcbWriteRegisters { regs, .. }
                ==> repeat_args matches InvocationArgs::TcbWriteRegisters { regs: repeat_regs, .. }
                && regs@.len() == repeat_regs@.len(),
        ensures
            spec_group(&repeat_args, arch).len() == spec_group(&self.spec_args(), arch).len(),
            self.spec_repeat_with(count, repeat_args).spec_words(arch).len() == 1 + 2 * spec_group(
                &self.spec_args(),
                arch,
            ).len(),
            self.spec_repeat_with(count, repeat_args).spec_raw_invocation(arch).len() == 8 * (1 + 2
                * spec_group(&self.spec_args(), arch).len()),
    {
        self.spec_args().lemma_same_variant_same_label(&repeat_args, arch);
        self.spec_args().lemma_plain_args_len(arch);
        repeat_args.lemma_plain_args_len(arch);
        lemma_words_to_bytes_len(self.spec_repeat_with(count, repeat_args).spec_words(arch));
    }

    /// Where the invocation can be put on the wire and its raw label is
    /// short of 2^20, the upper 32 bits of the tag of a repeat hold the
    /// count less one and nothing else. A longer label reaches into those
    /// bits, which the tag format lets the two share.
    pub proof fn lemma_repeat_count_in_tag(
        self,
        count: u32,
        repeat_args: InvocationArgs,
        arch: Arch,
    )
        requires
            self.spec_repeat() is None,
            self.encodable_on(arch),
            self.spec_label_raw() < Self::spec_short_label_limit(),
            count > 1,
        ensures
            message_info_repeats(self.spec_repeat_with(count, repeat_args).spec_tag(arch)) == count
                - 1,
    {
        self.spec_args().lemma_extra_caps_len();
        let label: u64 = self.spec_label_raw() as u64;
        let extra: u64 = self.spec_args().spec_extra_caps().len() as u64;
        let length: u64 = self.spec_args().spec_plain_args(arch).len() as u64;
        let less: u64 = (count - 1) as u64;
        assert(((label << 12 | 0u64 << 9 | extra << 7 | length) | (less << 32)) >> 32 == less)
            by (bit_vector)
            requires
                label < 0x10_0000,
                extra < 8,
                length < 0x80,
                less < 0x1_0000_0000,
        ;
    }

    /// Whether the plain words of the arguments are few enough for the tag.
    fn fits_tag(&self, config: &Config) -> (r: bool)
        ensures
            r == (self.spec_args().spec_plain_args(config.arch).len() < LENGTH_LIMIT),
    {
        proof {
            self.args.lemma_plain_args_len(config.arch);
        }
        match &self.args {
            InvocationArgs::TcbWriteRegisters { regs, .. } => regs.len() < 126,
            _ => true,
        }
    }

    /// Appends the bytes of the invocation to `data` as `add_raw_invocation`
    /// does, or reports why it cannot be put on the wire and leaves `data`
    /// as it was: the architecture lacks what the arguments name, or the
    /// plain words are too many for the tag.
    pub fn try_add_raw_invocation(&self, config: &Config, data: &mut Vec<u8>) -> (r: Result<
        (),
        EncodeError,
    >)
        requires
            self.wf(),
        ensures
            r is Ok <==> self.encodable_on(config.arch),
            r is Ok ==> final(data)@ == old(data)@ + self.spec_raw_invocation(config.arch),
            r is Err ==> final(data)@ == old(data)@,
            r matches Err(e) ==> (if self.spec_args().encodable_on(config.arch) && (
            self.spec_repeat() matches Some((_, repeat_args)) ==> repeat_args.encodable_on(
                config.arch,
            )) {
                e == EncodeError::InvocationFieldOutOfRange
            } else {
                e == EncodeError::UnsupportedArchitectureCombination
            }),
    {
        if !self.args.is_encodable_on(config.arch) {
            return Err(EncodeError::UnsupportedArchitectureCombination);
        }
        if let Some((_, repeat_args)) = &self.repeat {
            if !repeat_args.is_encodable_on(config.arch) {
                return Err(EncodeError::UnsupportedArchitectureCombination);
            }
        }
        if !self.fits_tag(config) {
            return Err(EncodeError::InvocationFieldOutOfRange);
        }
        self.add_raw_invocation(config, data);
        Ok(())
    }

    /// Appends the words of one group of arguments to `data`.
    fn add_group(args: &InvocationArgs, config: &Config, data: &mut Vec<u8>)
        requires
            args.encodable_on(config.arch),
        ensures
            final(data)@ == old(data)@ + words_to_bytes(spec_group(args, config.arch)),
    {
        let (service, plain, extra_caps) = args.get_args(config);
        push_word(data, service);
        push_words(data, &extra_caps);
        push_words(data, &plain);
        proof {
            let arch = config.arch;
            lemma_words_to_bytes_concat(seq![args.spec_service()], args.spec_extra_caps());
            lemma_words_to_bytes_concat(
                seq![args.spec_service()] + args.spec_extra_caps(),
                args.spec_plain_args(arch),
            );
            assert(data@ =~= old(data)@ + words_to_bytes(spec_group(args, arch)));
        }
    }

    /// Converts the invocation into the bytes that the initial task
    /// interprets at boot, and appends them to `data`.
    pub fn add_raw_invocation(&self, config: &Config, data: &mut Vec<u8>)
        requires
            self.wf(),
            self.encodable_on(config.arch),
        ensures
            final(data)@ == old(data)@ + self.spec_raw_invocation(config.arch),
            final(data)@.len() == old(data)@.len() + 8 * self.spec_words(config.arch).len(),
    {
        let ghost arch = config.arch;
        proof {
            self.args.lemma_extra_caps_len();
        }
        let (service, plain, extra_caps) = self.args.get_args(config);

        // Make room for the first group at once.
        data.reserve(2 + plain.len() * 8 + extra_caps.len() * 8);

        let mut tag: u64 = Invocation::message_info_new(
            self.label_raw as u64,
            0,
            extra_caps.len() as u64,
            plain.len() as u64,
        );
        if let Some((count, _)) = &self.repeat {
            tag |= ((*count - 1) as u64) << 32;
        }
        assert(tag == self.spec_tag(arch));

        push_word(data, tag);
        push_word(data, service);
        push_words(data, &extra_caps);
        push_words(data, &plain);
        proof {
            lemma_words_to_bytes_concat(seq![tag], seq![service]);
            lemma_words_to_bytes_concat(seq![tag] + seq![service], extra_caps@);
            lemma_words_to_bytes_concat(seq![tag] + seq![service] + extra_caps@, plain@);
            assert(seq![tag] + seq![service] + extra_caps@ + plain@ =~= seq![tag] + spec_group(
                &self.args,
                arch,
            ));
            assert(data@ =~= old(data)@ + words_to_bytes(
                seq![tag] + spec_group(&self.args, arch),
            ));
        }

        if let Some((_, repeat_args)) = &self.repeat {
            Invocation::add_group(repeat_args, config, data);
            proof {
                lemma_words_to_bytes_concat(
                    seq![tag] + spec_group(&self.args, arch),
                    spec_group(repeat_args, arch),
                );
            }
        } else {
            assert(self.spec_words(arch) =~= seq![tag] + spec_group(&self.args, arch));
        }
        proof {
            lemma_words_to_bytes_len(self.spec_words(arch));
            assert(data@ =~= old(data)@ + self.spec_raw_invocation(arch));
        }
    }
}

} // verus!
